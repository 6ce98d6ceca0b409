//! A program with its arguments, and how the outcome of running one is read.

use vstd::prelude::*;

verus! {

/// A program name and its arguments.
pub struct CommandLine {
    pub program: String,
    pub args: Vec<String>,
}

/// A command line as text.
#[verifier::ext_equal]
pub struct CommandView {
    pub program: Seq<char>,
    pub args: Seq<Seq<char>>,
}

impl View for CommandLine {
    type V = CommandView;

    open spec fn view(&self) -> CommandView {
        CommandView { program: self.program@, args: self.args@.map_values(|a: String| a@) }
    }
}

impl CommandLine {
    /// Run `program` with no arguments yet.
    pub fn new(program: &str) -> (r: CommandLine)
        ensures
            r@ == (CommandView { program: program@, args: Seq::empty() }),
    {
        let r = CommandLine { program: String::from_str(program), args: Vec::new() };
        assert(r@.args =~= Seq::<Seq<char>>::empty());
        r
    }

    /// Add one argument.
    pub fn arg(&mut self, a: &str)
        ensures
            final(self)@ == (CommandView {
                program: old(self)@.program,
                args: old(self)@.args.push(a@),
            }),
    {
        self.push_arg(String::from_str(a));
    }

    /// Add one argument.
    pub fn push_arg(&mut self, a: String)
        ensures
            final(self)@ == (CommandView {
                program: old(self)@.program,
                args: old(self)@.args.push(a@),
            }),
    {
        let ghost before = self.args@;
        self.args.push(a);
        assert(self.args@.map_values(|x: String| x@) =~= before.map_values(|x: String| x@).push(
            a@,
        ));
    }
}

/// What running a command gives: its standard output when it succeeded, its
/// error output otherwise.
pub fn command_result(success: bool, stdout: Vec<u8>, stderr: Vec<u8>) -> (r: Result<
    Vec<u8>,
    Vec<u8>,
>)
    ensures
        success ==> r == Ok::<Vec<u8>, Vec<u8>>(stdout),
        !success ==> r == Err::<Vec<u8>, Vec<u8>>(stderr),
{
    if !success {
        return Err(stderr);
    }
    Ok(stdout)
}

} // verus!
