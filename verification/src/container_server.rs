//! The container server: its greeting, and how it reads its port option.

use vstd::prelude::*;
use vstd::utf8::encode_utf8;
use crate::decimal::{i64_to_string, parse_i32, parse_i32_spec, signed_decimal};

verus! {

#[derive(Debug, Default)]
pub struct MyGreeter {}

impl MyGreeter {
    /// The reply to a hello request from `name`.
    pub fn say_hello(&self, name: &str) -> (r: String)
        ensures
            r@ == "Hello "@ + name@ + "!"@,
    {
        String::from_str("Hello ").concat(name).concat("!")
    }
}

/// The port option: a number from 0 to 65535.
pub fn parse_port_arg(arg: &str) -> (r: Result<i32, String>)
    ensures
        match parse_i32_spec(encode_utf8(arg@)) {
            None => r matches Err(m) && m@ == "fail to parse argument \""@ + arg@ + "\""@,
            Some(p) => if 0 <= p <= 65535 {
                r == Ok::<i32, String>(p)
            } else {
                r matches Err(m) && m@ == "port number "@ + signed_decimal(p as int) + " is invalid"@
            },
        },
{
    match parse_i32(arg.as_bytes()) {
        Some(port) => {
            if port >= 0 && port <= 65535 {
                Ok(port)
            } else {
                let digits = i64_to_string(port as i64);
                Err(String::from_str("port number ").concat(digits.as_str()).concat(" is invalid"))
            }
        },
        None => Err(String::from_str("fail to parse argument \"").concat(arg).concat("\"")),
    }
}

} // verus!
