//! Command lines for directories and network namespace links.

use vstd::prelude::*;
use crate::command::utils::{CommandLine, CommandView};
use crate::decimal::{decimal, u64_to_string};

verus! {

/// `mkdir -p <dir>`
pub fn create_dir_cmd(dir: &str) -> (r: CommandLine)
    ensures
        r@ =~= (CommandView { program: "mkdir"@, args: seq!["-p"@, dir@] }),
{
    let mut cmd = CommandLine::new("mkdir");
    cmd.arg("-p");
    cmd.arg(dir);
    cmd
}

/// `/proc/<pid>/ns/net`, the network namespace of a process.
pub open spec fn proc_netns_path(pid: nat) -> Seq<char> {
    "/proc/"@ + decimal(pid) + "/ns/net"@
}

/// `/var/run/netns/<pid>`, where `ip netns` finds the namespace by name.
pub open spec fn run_netns_path(pid: nat) -> Seq<char> {
    "/var/run/netns/"@ + decimal(pid)
}

/// `/proc/<pid>/ns/net`
pub fn proc_netns(pid: u64) -> (r: String)
    ensures
        r@ == proc_netns_path(pid as nat),
{
    let digits = u64_to_string(pid);
    let s = String::from_str("/proc/").concat(digits.as_str());
    s.concat("/ns/net")
}

/// `/var/run/netns/<pid>`
pub fn run_netns(pid: u64) -> (r: String)
    ensures
        r@ == run_netns_path(pid as nat),
{
    let digits = u64_to_string(pid);
    String::from_str("/var/run/netns/").concat(digits.as_str())
}

/// `ln -s /proc/<pid>/ns/net /var/run/netns/<pid>`: names the network
/// namespace of process `pid` for `ip netns`.
pub fn create_netns_link_cmd(pid: u64) -> (r: CommandLine)
    ensures
        r@ =~= (CommandView {
            program: "ln"@,
            args: seq!["-s"@, proc_netns_path(pid as nat), run_netns_path(pid as nat)],
        }),
{
    let mut cmd = CommandLine::new("ln");
    cmd.arg("-s");
    cmd.push_arg(proc_netns(pid));
    cmd.push_arg(run_netns(pid));
    cmd
}

/// `ls /var/run/netns/<pid>`: fails when the link is missing.
pub fn check_netns_link_cmd(pid: u64) -> (r: CommandLine)
    ensures
        r@ =~= (CommandView { program: "ls"@, args: seq![run_netns_path(pid as nat)] }),
{
    let mut cmd = CommandLine::new("ls");
    cmd.push_arg(run_netns(pid));
    cmd
}

/// `rm -f /var/run/netns/<pid>`
pub fn remove_netns_link_cmd(pid: u64) -> (r: CommandLine)
    ensures
        r@ =~= (CommandView { program: "rm"@, args: seq!["-f"@, run_netns_path(pid as nat)] }),
{
    let mut cmd = CommandLine::new("rm");
    cmd.arg("-f");
    cmd.push_arg(run_netns(pid));
    cmd
}

} // verus!
