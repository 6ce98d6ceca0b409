//! Prepared `ip` commands, each built once and run later. The arguments are
//! passed as written: several of them hold more than one word.

use vstd::prelude::*;
use crate::command::utils::{CommandLine, CommandView};
use crate::decimal::{decimal, i64_to_string, signed_decimal, u64_to_string};

verus! {

/// Creates a veth pair.
pub struct VethPair {
    pub cmd: CommandLine,
}

impl VethPair {
    pub fn new(name: &str, peer: &str) -> (r: Self)
        ensures
            r.cmd@ =~= (CommandView {
                program: "ip"@,
                args: seq!["link add"@, name@, "type veth peer name"@, peer@],
            }),
    {
        let mut cmd = CommandLine::new("ip");
        cmd.arg("link add");
        cmd.arg(name);
        cmd.arg("type veth peer name");
        cmd.arg(peer);
        VethPair { cmd }
    }
}

/// Moves a port into the network namespace of process `pid`.
pub struct AssignPortNs {
    pub cmd: CommandLine,
}

impl AssignPortNs {
    pub fn new(name: &str, pid: i32) -> (r: Self)
        ensures
            r.cmd@ =~= (CommandView {
                program: "ip"@,
                args: seq!["link set"@, name@, "netns"@, signed_decimal(pid as int)],
            }),
    {
        let mut cmd = CommandLine::new("ip");
        cmd.arg("link set");
        cmd.arg(name);
        cmd.arg("netns");
        cmd.push_arg(i64_to_string(pid as i64));
        AssignPortNs { cmd }
    }
}

/// Creates a network namespace.
pub struct AddNs {
    pub cmd: CommandLine,
}

impl AddNs {
    pub fn new(name: &str) -> (r: Self)
        ensures
            r.cmd@ =~= (CommandView { program: "ip"@, args: seq!["netns add"@, name@] }),
    {
        let mut cmd = CommandLine::new("ip");
        cmd.arg("netns add");
        cmd.arg(name);
        AddNs { cmd }
    }
}

/// Creates a bridge in a network namespace.
pub struct AddBrInNs {
    pub cmd: CommandLine,
}

impl AddBrInNs {
    pub fn new(netns: &str, br: &str) -> (r: Self)
        ensures
            r.cmd@ =~= (CommandView {
                program: "ip"@,
                args: seq!["netns exec "@, netns@, "ip link add name"@, br@, "type bridge"@],
            }),
    {
        let mut cmd = CommandLine::new("ip");
        cmd.arg("netns exec ");
        cmd.arg(netns);
        cmd.arg("ip link add name");
        cmd.arg(br);
        cmd.arg("type bridge");
        AddBrInNs { cmd }
    }
}

/// Brings a port up in a network namespace.
pub struct UpPortInNs {
    pub cmd: CommandLine,
}

impl UpPortInNs {
    pub fn new(port: &str, netns: &str) -> (r: Self)
        ensures
            r.cmd@ =~= (CommandView {
                program: "ip"@,
                args: seq!["netns exec"@, netns@, "ip link set dev"@, port@, "up"@],
            }),
    {
        let mut cmd = CommandLine::new("ip");
        cmd.arg("netns exec");
        cmd.arg(netns);
        cmd.arg("ip link set dev");
        cmd.arg(port);
        cmd.arg("up");
        UpPortInNs { cmd }
    }
}

/// Attaches a port to a bridge in a network namespace.
pub struct AttachPortToBrInNs {
    pub cmd: CommandLine,
}

impl AttachPortToBrInNs {
    pub fn new(port: &str, br: &str, netns: &str) -> (r: Self)
        ensures
            r.cmd@ =~= (CommandView {
                program: "ip"@,
                args: seq!["netns exec"@, netns@, "ip link set dev"@, port@, "master"@, br@],
            }),
    {
        let mut cmd = CommandLine::new("ip");
        cmd.arg("netns exec");
        cmd.arg(netns);
        cmd.arg("ip link set dev");
        cmd.arg(port);
        cmd.arg("master");
        cmd.arg(br);
        AttachPortToBrInNs { cmd }
    }
}

/// Creates a vxlan port; the destination port of a vxlan is 4789.
pub struct AddVxlanPort {
    pub cmd: CommandLine,
}

impl AddVxlanPort {
    pub fn new(port: &str, id: i32, remote_ip: &str, local_ip: &str) -> (r: Self)
        ensures
            r.cmd@ =~= (CommandView {
                program: "ip"@,
                args: seq![
                    "link add"@,
                    port@,
                    "type vxlan id"@,
                    signed_decimal(id as int),
                    decimal(4789),
                    "remote"@,
                    remote_ip@,
                    "local"@,
                    local_ip@,
                ],
            }),
    {
        let dst_port: u64 = 4789;
        let mut cmd = CommandLine::new("ip");
        cmd.arg("link add");
        cmd.arg(port);
        cmd.arg("type vxlan id");
        cmd.push_arg(i64_to_string(id as i64));
        cmd.push_arg(u64_to_string(dst_port));
        cmd.arg("remote");
        cmd.arg(remote_ip);
        cmd.arg("local");
        cmd.arg(local_ip);
        AddVxlanPort { cmd }
    }
}

} // verus!
