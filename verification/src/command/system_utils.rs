//! Prepared commands for the network namespace directory and links.

use vstd::prelude::*;
use crate::command::utils::{CommandLine, CommandView};
use crate::decimal::{i64_to_string, signed_decimal};

verus! {

/// Creates `/var/run/netns`; the option and the path are passed as one
/// argument.
pub struct CreateNetNSDir {
    pub cmd: CommandLine,
}

impl CreateNetNSDir {
    pub fn new() -> (r: Self)
        ensures
            r.cmd@ =~= (CommandView { program: "mkdir"@, args: seq!["-p /var/run/netns"@] }),
    {
        let mut cmd = CommandLine::new("mkdir");
        cmd.arg("-p /var/run/netns");
        CreateNetNSDir { cmd }
    }
}

/// Links `/proc/<pid>/ns/net` to `/var/run/netns/<pid>`.
pub struct LinkNS {
    pub cmd: CommandLine,
}

impl LinkNS {
    pub fn new(container_pid: i32) -> (r: Self)
        ensures
            r.cmd@ =~= (CommandView {
                program: "ln"@,
                args: seq![
                    "-s"@,
                    "/proc/"@ + signed_decimal(container_pid as int) + "/ns/net"@,
                    "/var/run/netns/"@ + signed_decimal(container_pid as int),
                ],
            }),
    {
        let digits = i64_to_string(container_pid as i64);
        let src_dir = String::from_str("/proc/").concat(digits.as_str()).concat("/ns/net");
        let dst_dir = String::from_str("/var/run/netns/").concat(digits.as_str());
        let mut cmd = CommandLine::new("ln");
        cmd.arg("-s");
        cmd.push_arg(src_dir);
        cmd.push_arg(dst_dir);
        LinkNS { cmd }
    }
}

} // verus!
