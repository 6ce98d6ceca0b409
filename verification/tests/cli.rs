use mocknet::cli::{ctl_arg, network_subcmd, CtlArg, CtlArgError, CtlMatches, NetworkMatches, NetworkSubcmd, UserSubcmd};

fn some(s: &str) -> Option<String> {
    Some(s.to_string())
}

#[test]
fn user_subcommands() {
    let CtlArg { user, subcmd } = ctl_arg(some("alice"), CtlMatches::History).ok().unwrap();
    assert_eq!(user, "alice");
    assert!(matches!(subcmd, UserSubcmd::History));
    assert!(matches!(ctl_arg(some("a"), CtlMatches::Restore(some("12"))).ok().unwrap().subcmd, UserSubcmd::Restore(12)));
    match ctl_arg(some("a"), CtlMatches::Update(some("net.json"))).ok().unwrap().subcmd {
        UserSubcmd::Update(p) => assert_eq!(p, "net.json"),
        _ => panic!("update expected"),
    }
}

#[test]
fn network_subcommands() {
    match ctl_arg(some("a"), CtlMatches::Network(some("n1"), NetworkMatches::Path(some("3"), some("1")))).ok().unwrap().subcmd {
        UserSubcmd::NetworkOp(name, NetworkSubcmd::Path(3, 1)) => assert_eq!(name, "n1"),
        _ => panic!("path expected"),
    }
    assert!(matches!(network_subcmd(NetworkMatches::Info), Ok(NetworkSubcmd::Info)));
    assert!(matches!(network_subcmd(NetworkMatches::Dev(some("7"))), Ok(NetworkSubcmd::Dev(7))));
    assert!(matches!(network_subcmd(NetworkMatches::Connect(some("1"), some("2"))), Ok(NetworkSubcmd::Connect(1, 2))));
    assert!(matches!(network_subcmd(NetworkMatches::Disconnect(some("2"), some("1"))), Ok(NetworkSubcmd::Disconnect(2, 1))));
    assert!(matches!(network_subcmd(NetworkMatches::ConnHistory), Ok(NetworkSubcmd::ConnectionHistory)));
}

#[test]
fn argument_errors() {
    assert!(matches!(ctl_arg(None, CtlMatches::History), Err(CtlArgError::MissingUser)));
    assert!(matches!(ctl_arg(some("a"), CtlMatches::Unknown), Err(CtlArgError::UnknownSubcommand)));
    assert!(matches!(ctl_arg(some("a"), CtlMatches::Restore(None)), Err(CtlArgError::MissingValue)));
    assert!(matches!(ctl_arg(some("a"), CtlMatches::Restore(some("x1"))), Err(CtlArgError::InvalidNumber)));
    assert!(matches!(ctl_arg(some("a"), CtlMatches::Update(None)), Err(CtlArgError::MissingValue)));
    assert!(matches!(ctl_arg(some("a"), CtlMatches::Network(None, NetworkMatches::Info)), Err(CtlArgError::MissingValue)));
    // the network's own subcommand is read before its name
    assert!(matches!(ctl_arg(some("a"), CtlMatches::Network(None, NetworkMatches::Unknown)), Err(CtlArgError::UnknownSubcommand)));
    assert!(matches!(network_subcmd(NetworkMatches::Path(some("1"), None)), Err(CtlArgError::MissingValue)));
    assert!(matches!(network_subcmd(NetworkMatches::Path(some("é"), some("1"))), Err(CtlArgError::InvalidNumber)));
    assert!(matches!(network_subcmd(NetworkMatches::Dev(some("-1"))), Err(CtlArgError::InvalidNumber)));
}
