//! Prepared `docker` commands, each built once and run later.

use vstd::prelude::*;
use crate::command::utils::{CommandLine, CommandView};

verus! {

/// Starts a container with no network, root privileges, and a detached
/// interactive shell.
pub struct PhyContainer {
    pub cmd: CommandLine,
}

impl PhyContainer {
    pub fn new(name: &str, image: &str) -> (r: Self)
        ensures
            r.cmd@ =~= (CommandView {
                program: "docker"@,
                args: seq![
                    "run"@,
                    "--net=none"@,
                    "--privileged"@,
                    "-itd"@,
                    "--entrypoint=/bin/bash"@,
                    "--name"@,
                    name@,
                    image@,
                ],
            }),
    {
        let mut cmd = CommandLine::new("docker");
        cmd.arg("run");
        cmd.arg("--net=none");
        cmd.arg("--privileged");
        cmd.arg("-itd");
        cmd.arg("--entrypoint=/bin/bash");
        cmd.arg("--name");
        cmd.arg(name);
        cmd.arg(image);
        PhyContainer { cmd }
    }
}

/// Asks for the process id of a container; the inspection is passed as one
/// argument.
pub struct PIDChecker {
    pub cmd: CommandLine,
}

impl PIDChecker {
    pub fn new(name: &str) -> (r: Self)
        ensures
            r.cmd@ =~= (CommandView {
                program: "docker"@,
                args: seq!["docker inspect -f {{.State.Pid}}"@, name@],
            }),
    {
        let mut cmd = CommandLine::new("docker");
        cmd.arg("docker inspect -f {{.State.Pid}}");
        cmd.arg(name);
        PIDChecker { cmd }
    }
}

} // verus!
