//! `ip` command lines for veth pairs, namespaces, bridges and vxlan devices.

use vstd::prelude::*;
use crate::command::utils::{CommandLine, CommandView};
use crate::decimal::{i64_to_string, signed_decimal, u64_to_string, decimal};

verus! {

/// `ip link add <name> type veth peer name <peer>`
pub fn create_veth_pair_cmd(name: &str, peer: &str) -> (r: CommandLine)
    ensures
        r@ =~= (CommandView {
            program: "ip"@,
            args: seq!["link"@, "add"@, name@, "type"@, "veth"@, "peer"@, "name"@, peer@],
        }),
{
    let mut cmd = CommandLine::new("ip");
    cmd.arg("link");
    cmd.arg("add");
    cmd.arg(name);
    cmd.arg("type");
    cmd.arg("veth");
    cmd.arg("peer");
    cmd.arg("name");
    cmd.arg(peer);
    cmd
}

/// `ip link delete <dev>`
pub fn delete_veth_dev_cmd(dev: &str) -> (r: CommandLine)
    ensures
        r@ =~= (CommandView { program: "ip"@, args: seq!["link"@, "delete"@, dev@] }),
{
    let mut cmd = CommandLine::new("ip");
    cmd.arg("link");
    cmd.arg("delete");
    cmd.arg(dev);
    cmd
}

/// `ip link set <dev> netns <netns>`
pub fn netns_add_dev_cmd(netns: &str, dev: &str) -> (r: CommandLine)
    ensures
        r@ =~= (CommandView {
            program: "ip"@,
            args: seq!["link"@, "set"@, dev@, "netns"@, netns@],
        }),
{
    let mut cmd = CommandLine::new("ip");
    cmd.arg("link");
    cmd.arg("set");
    cmd.arg(dev);
    cmd.arg("netns");
    cmd.arg(netns);
    cmd
}

/// `ip netns add <netns>`
pub fn create_netns_cmd(netns: &str) -> (r: CommandLine)
    ensures
        r@ =~= (CommandView { program: "ip"@, args: seq!["netns"@, "add"@, netns@] }),
{
    let mut cmd = CommandLine::new("ip");
    cmd.arg("netns");
    cmd.arg("add");
    cmd.arg(netns);
    cmd
}

/// `ip netns exec <netns> ip link add name <br> type bridge`
pub fn netns_create_br_cmd(netns: &str, br: &str) -> (r: CommandLine)
    ensures
        r@ =~= (CommandView {
            program: "ip"@,
            args: seq![
                "netns"@,
                "exec"@,
                netns@,
                "ip"@,
                "link"@,
                "add"@,
                "name"@,
                br@,
                "type"@,
                "bridge"@,
            ],
        }),
{
    let mut cmd = CommandLine::new("ip");
    cmd.arg("netns");
    cmd.arg("exec");
    cmd.arg(netns);
    cmd.arg("ip");
    cmd.arg("link");
    cmd.arg("add");
    cmd.arg("name");
    cmd.arg(br);
    cmd.arg("type");
    cmd.arg("bridge");
    cmd
}

/// `ip netns exec <netns> ip link set dev <dev> up`
pub fn netns_up_dev_cmd(netns: &str, dev: &str) -> (r: CommandLine)
    ensures
        r@ =~= (CommandView {
            program: "ip"@,
            args: seq!["netns"@, "exec"@, netns@, "ip"@, "link"@, "set"@, "dev"@, dev@, "up"@],
        }),
{
    let mut cmd = CommandLine::new("ip");
    cmd.arg("netns");
    cmd.arg("exec");
    cmd.arg(netns);
    cmd.arg("ip");
    cmd.arg("link");
    cmd.arg("set");
    cmd.arg("dev");
    cmd.arg(dev);
    cmd.arg("up");
    cmd
}

/// `ip netns exec <netns> ip link set dev <dev> master <br>`
pub fn netns_attach_dev_to_br_cmd(netns: &str, dev: &str, br: &str) -> (r: CommandLine)
    ensures
        r@ =~= (CommandView {
            program: "ip"@,
            args: seq![
                "netns"@,
                "exec"@,
                netns@,
                "ip"@,
                "link"@,
                "set"@,
                "dev"@,
                dev@,
                "master"@,
                br@,
            ],
        }),
{
    let mut cmd = CommandLine::new("ip");
    cmd.arg("netns");
    cmd.arg("exec");
    cmd.arg(netns);
    cmd.arg("ip");
    cmd.arg("link");
    cmd.arg("set");
    cmd.arg("dev");
    cmd.arg(dev);
    cmd.arg("master");
    cmd.arg(br);
    cmd
}

/// `ip link add <dev> type vxlan id <vxlan_id> "dst port" 4789 remote <rip>
/// local <lip>`; the destination port of a vxlan is 4789, and "dst port" is
/// passed as one argument.
pub fn create_vxlan_dev_cmd(dev: &str, vxlan_id: i32, rip: &str, lip: &str) -> (r: CommandLine)
    ensures
        r@ =~= (CommandView {
            program: "ip"@,
            args: seq![
                "link"@,
                "add"@,
                dev@,
                "type"@,
                "vxlan"@,
                "id"@,
                signed_decimal(vxlan_id as int),
                "dst port"@,
                decimal(4789),
                "remote"@,
                rip@,
                "local"@,
                lip@,
            ],
        }),
{
    let dst_port: u64 = 4789;
    let mut cmd = CommandLine::new("ip");
    cmd.arg("link");
    cmd.arg("add");
    cmd.arg(dev);
    cmd.arg("type");
    cmd.arg("vxlan");
    cmd.arg("id");
    cmd.push_arg(i64_to_string(vxlan_id as i64));
    cmd.arg("dst port");
    cmd.push_arg(u64_to_string(dst_port));
    cmd.arg("remote");
    cmd.arg(rip);
    cmd.arg("local");
    cmd.arg(lip);
    cmd
}

} // verus!
