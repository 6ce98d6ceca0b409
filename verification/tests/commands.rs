use mocknet::command::docker::{
    container_pid, inspect_pid_cmd, launch_container_cmd, remove_container_cmd, stop_container_cmd,
};
use mocknet::command::docker_cmd::{PIDChecker, PhyContainer};
use mocknet::command::ip::{
    create_netns_cmd, create_veth_pair_cmd, create_vxlan_dev_cmd, delete_veth_dev_cmd,
    netns_add_dev_cmd, netns_attach_dev_to_br_cmd, netns_create_br_cmd, netns_up_dev_cmd,
};
use mocknet::command::system::{
    check_netns_link_cmd, create_dir_cmd, create_netns_link_cmd, proc_netns, remove_netns_link_cmd,
    run_netns,
};
use mocknet::command::system_utils::{CreateNetNSDir, LinkNS};
use mocknet::command::utils::{command_result, CommandLine};
use mocknet::command::{AddBrInNs, AddNs, AddVxlanPort, AssignPortNs, AttachPortToBrInNs, UpPortInNs, VethPair};

fn parts(c: &CommandLine) -> (String, Vec<String>) {
    (c.program.clone(), c.args.clone())
}

fn expect(c: &CommandLine, program: &str, args: &[&str]) {
    let (p, a) = parts(c);
    assert_eq!(p, program);
    assert_eq!(a, args.iter().map(|s| s.to_string()).collect::<Vec<_>>());
}

#[test]
fn veth_and_netns_commands() {
    expect(&create_veth_pair_cmd("v0", "v1"), "ip", &["link", "add", "v0", "type", "veth", "peer", "name", "v1"]);
    expect(&delete_veth_dev_cmd("v0"), "ip", &["link", "delete", "v0"]);
    expect(&netns_add_dev_cmd("ns1", "v0"), "ip", &["link", "set", "v0", "netns", "ns1"]);
    expect(&create_netns_cmd("ns1"), "ip", &["netns", "add", "ns1"]);
    expect(
        &netns_create_br_cmd("ns1", "br0"),
        "ip",
        &["netns", "exec", "ns1", "ip", "link", "add", "name", "br0", "type", "bridge"],
    );
    expect(&netns_up_dev_cmd("ns1", "v0"), "ip", &["netns", "exec", "ns1", "ip", "link", "set", "dev", "v0", "up"]);
    expect(
        &netns_attach_dev_to_br_cmd("ns1", "v0", "br0"),
        "ip",
        &["netns", "exec", "ns1", "ip", "link", "set", "dev", "v0", "master", "br0"],
    );
}

#[test]
fn vxlan_command_uses_port_4789() {
    expect(
        &create_vxlan_dev_cmd("vx0", 42, "10.0.0.2", "10.0.0.1"),
        "ip",
        &["link", "add", "vx0", "type", "vxlan", "id", "42", "dst port", "4789", "remote", "10.0.0.2", "local", "10.0.0.1"],
    );
    expect(
        &create_vxlan_dev_cmd("vx1", -7, "a", "b"),
        "ip",
        &["link", "add", "vx1", "type", "vxlan", "id", "-7", "dst port", "4789", "remote", "a", "local", "b"],
    );
}

#[test]
fn docker_commands() {
    expect(
        &launch_container_cmd("c1", "ubuntu"),
        "docker",
        &["run", "--net=none", "--privileged", "-itd", "--entrypoint=/bin/bash", "--name", "c1", "ubuntu"],
    );
    expect(&inspect_pid_cmd("c1"), "docker", &["inspect", "-f", "{{.State.Pid}}", "c1"]);
    expect(&stop_container_cmd("c1"), "docker", &["stop", "c1"]);
    expect(&remove_container_cmd("c1"), "docker", &["rm", "c1"]);
}

#[test]
fn container_pid_reads_trimmed_number() {
    assert_eq!(container_pid("12345\n"), Some(12345));
    assert_eq!(container_pid("  7 \r\n"), Some(7));
    assert_eq!(container_pid("+8\n"), Some(8));
    assert_eq!(container_pid("18446744073709551615"), Some(u64::MAX));
    assert_eq!(container_pid("18446744073709551616"), None);
    assert_eq!(container_pid("\n"), None);
    assert_eq!(container_pid("12a"), None);
    assert_eq!(container_pid("-1"), None);
    assert_eq!(container_pid("1 2"), None);
    assert_eq!(container_pid("\u{a0}9\u{a0}\n"), Some(9));
}

#[test]
fn system_commands() {
    expect(&create_dir_cmd("/var/run/netns"), "mkdir", &["-p", "/var/run/netns"]);
    assert_eq!(proc_netns(4021), "/proc/4021/ns/net");
    assert_eq!(run_netns(0), "/var/run/netns/0");
    expect(&create_netns_link_cmd(4021), "ln", &["-s", "/proc/4021/ns/net", "/var/run/netns/4021"]);
    expect(&check_netns_link_cmd(99), "ls", &["/var/run/netns/99"]);
    expect(&remove_netns_link_cmd(99), "rm", &["-f", "/var/run/netns/99"]);
}

#[test]
fn prepared_ip_commands_keep_multi_word_arguments() {
    expect(&VethPair::new("a", "b").cmd, "ip", &["link add", "a", "type veth peer name", "b"]);
    expect(&AssignPortNs::new("a", 1200).cmd, "ip", &["link set", "a", "netns", "1200"]);
    expect(&AddNs::new("n").cmd, "ip", &["netns add", "n"]);
    expect(&AddBrInNs::new("n", "br").cmd, "ip", &["netns exec ", "n", "ip link add name", "br", "type bridge"]);
    expect(&UpPortInNs::new("p", "n").cmd, "ip", &["netns exec", "n", "ip link set dev", "p", "up"]);
    expect(&AttachPortToBrInNs::new("p", "br", "n").cmd, "ip", &["netns exec", "n", "ip link set dev", "p", "master", "br"]);
    expect(
        &AddVxlanPort::new("p", 3, "r", "l").cmd,
        "ip",
        &["link add", "p", "type vxlan id", "3", "4789", "remote", "r", "local", "l"],
    );
}

#[test]
fn prepared_docker_and_system_commands() {
    expect(
        &PhyContainer::new("c", "img").cmd,
        "docker",
        &["run", "--net=none", "--privileged", "-itd", "--entrypoint=/bin/bash", "--name", "c", "img"],
    );
    expect(&PIDChecker::new("c").cmd, "docker", &["docker inspect -f {{.State.Pid}}", "c"]);
    expect(&CreateNetNSDir::new().cmd, "mkdir", &["-p /var/run/netns"]);
    expect(&LinkNS::new(-3).cmd, "ln", &["-s", "/proc/-3/ns/net", "/var/run/netns/-3"]);
    expect(&LinkNS::new(77).cmd, "ln", &["-s", "/proc/77/ns/net", "/var/run/netns/77"]);
}

#[test]
fn command_outcome() {
    assert_eq!(command_result(true, b"out".to_vec(), b"err".to_vec()), Ok(b"out".to_vec()));
    assert_eq!(command_result(false, b"out".to_vec(), b"err".to_vec()), Err(b"err".to_vec()));
}
