//! Configuration directives: a command word and its arguments, read into a
//! directive. Each command has required arguments and then optional ones.

use vstd::prelude::*;

verus! {

#[derive(PartialEq, Eq, Debug)]
pub enum ConfigDirective {
    CommandOne { arg1: String },
    OtherCommand { arg1: String, optional_arg1: Option<String> },
}

/// The command words that `parse_line` knows.
pub open spec fn known_command(command: Seq<char>) -> bool {
    command == "command1"@ || command == "other_command"@
}

/// Read one directive. `command1` takes one argument; `other_command` takes
/// one argument and an optional second one.
pub fn parse_line(command: &str, args: &[&str]) -> (r: ConfigDirective)
    requires
        known_command(command@),
        args@.len() >= 1,
    ensures
        command@ == "command1"@ ==> (r matches ConfigDirective::CommandOne { arg1 } && arg1@
            == args@[0]@),
        command@ == "other_command"@ ==> (r matches ConfigDirective::OtherCommand {
            arg1,
            optional_arg1,
        } && arg1@ == args@[0]@ && (if args@.len() > 1 {
            optional_arg1 matches Some(o) && o@ == args@[1]@
        } else {
            optional_arg1 is None
        })),
{
    proof {
        reveal_strlit("command1");
        reveal_strlit("other_command");
    }
    let word = String::from_str(command);
    let one = String::from_str("command1");
    if word == one {
        assert("other_command"@.len() == 13);
        assert("command1"@.len() == 8);
        ConfigDirective::CommandOne { arg1: String::from_str(args[0]) }
    } else {
        let arg1 = String::from_str(args[0]);
        let optional_arg1 = if args.len() > 1 {
            Some(String::from_str(args[1]))
        } else {
            None
        };
        ConfigDirective::OtherCommand { arg1, optional_arg1 }
    }
}

} // verus!
