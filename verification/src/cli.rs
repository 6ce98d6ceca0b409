//! Command-line arguments of the server and of the control tool, once the
//! argument parser has matched them.

use vstd::prelude::*;
use vstd::utf8::encode_utf8;
use crate::decimal::{parse_u64, parse_u64_spec};

verus! {

/// Arguments of the server.
pub struct CliArg {
    pub warp_addr: String,
    pub indradb_addr: String,
    pub cluster_config_path: Option<String>,
}

/// Arguments of the control tool: the user to act for, and what to do.
pub struct CtlArg {
    pub user: String,
    pub subcmd: UserSubcmd,
}

pub enum UserSubcmd {
    History,
    Restore(u64),
    Update(String),
    NetworkOp(String, NetworkSubcmd),
}

pub enum NetworkSubcmd {
    Info,
    Dev(u64),
    Path(u64, u64),
    Connect(u64, u64),
    Disconnect(u64, u64),
    ConnectionHistory,
}

/// The `network` subcommand as matched, with the values given to its options.
pub enum NetworkMatches {
    Info,
    Dev(Option<String>),
    Path(Option<String>, Option<String>),
    Connect(Option<String>, Option<String>),
    Disconnect(Option<String>, Option<String>),
    ConnHistory,
    /// No known subcommand was given.
    Unknown,
}

/// The subcommand as matched, with the values given to its options.
pub enum CtlMatches {
    History,
    Restore(Option<String>),
    Update(Option<String>),
    Network(Option<String>, NetworkMatches),
    /// No known subcommand was given.
    Unknown,
}

/// Why matched arguments do not make a command; the tool stops on each.
pub enum CtlArgError {
    /// No user name was given.
    MissingUser,
    /// An option that the subcommand needs has no value.
    MissingValue,
    /// A device or history id is not a number.
    InvalidNumber,
    /// No known subcommand was given.
    UnknownSubcommand,
}

/// The number an option's text denotes, if the option has a value and its
/// text (its UTF-8 bytes) is a number.
pub open spec fn number_arg(v: Option<String>) -> Result<u64, CtlArgError> {
    match v {
        None => Err(CtlArgError::MissingValue),
        Some(s) => match parse_u64_spec(encode_utf8(s@)) {
            Some(n) => Ok(n),
            None => Err(CtlArgError::InvalidNumber),
        },
    }
}

/// Two numbered options, the first read first.
pub open spec fn number_pair(a: Option<String>, b: Option<String>) -> Result<(u64, u64), CtlArgError> {
    match number_arg(a) {
        Err(e) => Err(e),
        Ok(x) => match number_arg(b) {
            Err(e) => Err(e),
            Ok(y) => Ok((x, y)),
        },
    }
}

/// What a matched `network` subcommand asks for.
pub open spec fn network_subcmd_spec(m: NetworkMatches) -> Result<NetworkSubcmd, CtlArgError> {
    match m {
        NetworkMatches::Info => Ok(NetworkSubcmd::Info),
        NetworkMatches::Dev(v) => match number_arg(v) {
            Ok(n) => Ok(NetworkSubcmd::Dev(n)),
            Err(e) => Err(e),
        },
        NetworkMatches::Path(a, b) => match number_pair(a, b) {
            Ok((x, y)) => Ok(NetworkSubcmd::Path(x, y)),
            Err(e) => Err(e),
        },
        NetworkMatches::Connect(a, b) => match number_pair(a, b) {
            Ok((x, y)) => Ok(NetworkSubcmd::Connect(x, y)),
            Err(e) => Err(e),
        },
        NetworkMatches::Disconnect(a, b) => match number_pair(a, b) {
            Ok((x, y)) => Ok(NetworkSubcmd::Disconnect(x, y)),
            Err(e) => Err(e),
        },
        NetworkMatches::ConnHistory => Ok(NetworkSubcmd::ConnectionHistory),
        NetworkMatches::Unknown => Err(CtlArgError::UnknownSubcommand),
    }
}

/// Read an option's value as a number, the way `parse::<u64>` does.
pub fn parse_number_arg(v: &Option<String>) -> (r: Result<u64, CtlArgError>)
    ensures
        r == number_arg(*v),
{
    match v {
        None => Err(CtlArgError::MissingValue),
        Some(s) => {
            let text = s.as_str();
            match parse_u64(text.as_bytes()) {
                Some(n) => Ok(n),
                None => Err(CtlArgError::InvalidNumber),
            }
        },
    }
}

fn parse_number_pair(a: &Option<String>, b: &Option<String>) -> (r: Result<(u64, u64), CtlArgError>)
    ensures
        r == number_pair(*a, *b),
{
    let x = match parse_number_arg(a) {
        Ok(x) => x,
        Err(e) => {
            return Err(e);
        },
    };
    let y = match parse_number_arg(b) {
        Ok(y) => y,
        Err(e) => {
            return Err(e);
        },
    };
    Ok((x, y))
}

/// The `network` subcommand that the matched arguments ask for.
pub fn network_subcmd(m: NetworkMatches) -> (r: Result<NetworkSubcmd, CtlArgError>)
    ensures
        r == network_subcmd_spec(m),
{
    match m {
        NetworkMatches::Info => Ok(NetworkSubcmd::Info),
        NetworkMatches::Dev(v) => match parse_number_arg(&v) {
            Ok(n) => Ok(NetworkSubcmd::Dev(n)),
            Err(e) => Err(e),
        },
        NetworkMatches::Path(a, b) => match parse_number_pair(&a, &b) {
            Ok((x, y)) => Ok(NetworkSubcmd::Path(x, y)),
            Err(e) => Err(e),
        },
        NetworkMatches::Connect(a, b) => match parse_number_pair(&a, &b) {
            Ok((x, y)) => Ok(NetworkSubcmd::Connect(x, y)),
            Err(e) => Err(e),
        },
        NetworkMatches::Disconnect(a, b) => match parse_number_pair(&a, &b) {
            Ok((x, y)) => Ok(NetworkSubcmd::Disconnect(x, y)),
            Err(e) => Err(e),
        },
        NetworkMatches::ConnHistory => Ok(NetworkSubcmd::ConnectionHistory),
        NetworkMatches::Unknown => Err(CtlArgError::UnknownSubcommand),
    }
}

/// What the matched subcommand asks for.
pub open spec fn user_subcmd_spec(m: CtlMatches) -> Result<UserSubcmd, CtlArgError> {
    match m {
        CtlMatches::History => Ok(UserSubcmd::History),
        CtlMatches::Restore(v) => match number_arg(v) {
            Ok(n) => Ok(UserSubcmd::Restore(n)),
            Err(e) => Err(e),
        },
        CtlMatches::Update(v) => match v {
            Some(path) => Ok(UserSubcmd::Update(path)),
            None => Err(CtlArgError::MissingValue),
        },
        CtlMatches::Network(name, sub) => match network_subcmd_spec(sub) {
            Err(e) => Err(e),
            Ok(n) => match name {
                Some(name) => Ok(UserSubcmd::NetworkOp(name, n)),
                None => Err(CtlArgError::MissingValue),
            },
        },
        CtlMatches::Unknown => Err(CtlArgError::UnknownSubcommand),
    }
}

/// The command that the matched arguments ask for. The user name is checked
/// first, then the subcommand; within the `network` subcommand its own
/// subcommand is read before the network name.
pub fn ctl_arg(user: Option<String>, m: CtlMatches) -> (r: Result<CtlArg, CtlArgError>)
    ensures
        match user {
            None => r == Err::<CtlArg, CtlArgError>(CtlArgError::MissingUser),
            Some(u) => match user_subcmd_spec(m) {
                Ok(sub) => r == Ok::<CtlArg, CtlArgError>(CtlArg { user: u, subcmd: sub }),
                Err(e) => r == Err::<CtlArg, CtlArgError>(e),
            },
        },
{
    let user = match user {
        Some(u) => u,
        None => {
            return Err(CtlArgError::MissingUser);
        },
    };
    let subcmd = match m {
        CtlMatches::History => UserSubcmd::History,
        CtlMatches::Restore(v) => match parse_number_arg(&v) {
            Ok(n) => UserSubcmd::Restore(n),
            Err(e) => {
                return Err(e);
            },
        },
        CtlMatches::Update(v) => match v {
            Some(path) => UserSubcmd::Update(path),
            None => {
                return Err(CtlArgError::MissingValue);
            },
        },
        CtlMatches::Network(name, sub) => {
            let n = match network_subcmd(sub) {
                Ok(n) => n,
                Err(e) => {
                    return Err(e);
                },
            };
            match name {
                Some(name) => UserSubcmd::NetworkOp(name, n),
                None => {
                    return Err(CtlArgError::MissingValue);
                },
            }
        },
        CtlMatches::Unknown => {
            return Err(CtlArgError::UnknownSubcommand);
        },
    };
    Ok(CtlArg { user, subcmd })
}

} // verus!
