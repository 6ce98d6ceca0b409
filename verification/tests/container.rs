use mocknet::config_directive::{parse_line, ConfigDirective};
use mocknet::container_backend::{greeting_name, ContainerBackendBuilder, ContainerServerAddr};
use mocknet::container_server::{parse_port_arg, MyGreeter};

#[test]
fn greeting() {
    assert_eq!(MyGreeter {}.say_hello("Tonic"), "Hello Tonic!");
    assert_eq!(greeting_name(), "Tonic");
}

#[test]
fn port_option() {
    assert_eq!(parse_port_arg("1024"), Ok(1024));
    assert_eq!(parse_port_arg("0"), Ok(0));
    assert_eq!(parse_port_arg("65535"), Ok(65535));
    assert_eq!(parse_port_arg("65536"), Err("port number 65536 is invalid".to_string()));
    assert_eq!(parse_port_arg("-1"), Err("port number -1 is invalid".to_string()));
    assert_eq!(parse_port_arg("http"), Err("fail to parse argument \"http\"".to_string()));
    assert_eq!(parse_port_arg("99999999999"), Err("fail to parse argument \"99999999999\"".to_string()));
}

#[test]
fn backend_builder_keeps_addresses() {
    let b = ContainerBackendBuilder::new(vec![ContainerServerAddr("http://a".to_string())].into_iter());
    let addrs: Vec<String> = b.addr_iter.map(|a| a.0).collect();
    assert_eq!(addrs, vec!["http://a".to_string()]);
}

#[test]
fn config_directives() {
    assert_eq!(parse_line("command1", &["foo"]), ConfigDirective::CommandOne { arg1: "foo".to_string() });
    assert_eq!(
        parse_line("other_command", &["foo"]),
        ConfigDirective::OtherCommand { arg1: "foo".to_string(), optional_arg1: None }
    );
    assert_eq!(
        parse_line("other_command", &["foo", "bar"]),
        ConfigDirective::OtherCommand { arg1: "foo".to_string(), optional_arg1: Some("bar".to_string()) }
    );
}
