//! `docker` command lines that start and remove emulation containers.

use vstd::prelude::*;
use vstd::utf8::encode_utf8;
use crate::command::utils::{CommandLine, CommandView};
use crate::decimal::{parse_trimmed_u64, parse_u64_spec, trim_spec};

verus! {

/// `docker run --net=none --privileged -itd --entrypoint=/bin/bash --name
/// <name> <image>`: a container with no network, root privileges, and a
/// detached interactive shell.
pub fn launch_container_cmd(name: &str, image: &str) -> (r: CommandLine)
    ensures
        r@ =~= (CommandView {
            program: "docker"@,
            args: seq![
                "run"@,
                "--net=none"@,
                "--privileged"@,
                "-itd"@,
                "--entrypoint=/bin/bash"@,
                "--name"@,
                name@,
                image@,
            ],
        }),
{
    let mut cmd = CommandLine::new("docker");
    cmd.arg("run");
    cmd.arg("--net=none");
    cmd.arg("--privileged");
    cmd.arg("-itd");
    cmd.arg("--entrypoint=/bin/bash");
    cmd.arg("--name");
    cmd.arg(name);
    cmd.arg(image);
    cmd
}

/// `docker inspect -f {{.State.Pid}} <name>`: asks for the process id of a
/// container.
pub fn inspect_pid_cmd(name: &str) -> (r: CommandLine)
    ensures
        r@ =~= (CommandView {
            program: "docker"@,
            args: seq!["inspect"@, "-f"@, "{{.State.Pid}}"@, name@],
        }),
{
    let mut cmd = CommandLine::new("docker");
    cmd.arg("inspect");
    cmd.arg("-f");
    cmd.arg("{{.State.Pid}}");
    cmd.arg(name);
    cmd
}

/// The process id that `docker inspect` printed: the output, with the
/// surrounding white space and the ending newline trimmed, read as a number.
pub fn container_pid(stdout: &str) -> (r: Option<u64>)
    ensures
        r == parse_u64_spec(encode_utf8(trim_spec(stdout@))),
{
    parse_trimmed_u64(stdout)
}

/// `docker stop <name>`; stopping may fail, which the caller ignores.
pub fn stop_container_cmd(name: &str) -> (r: CommandLine)
    ensures
        r@ =~= (CommandView { program: "docker"@, args: seq!["stop"@, name@] }),
{
    let mut cmd = CommandLine::new("docker");
    cmd.arg("stop");
    cmd.arg(name);
    cmd
}

/// `docker rm <name>`
pub fn remove_container_cmd(name: &str) -> (r: CommandLine)
    ensures
        r@ =~= (CommandView { program: "docker"@, args: seq!["rm"@, name@] }),
{
    let mut cmd = CommandLine::new("docker");
    cmd.arg("rm");
    cmd.arg(name);
    cmd
}

} // verus!
