//! Command lines of other programs.

use vstd::prelude::*;

use crate::text::views;

verus! {

/// Program with its arguments.
#[derive(Debug, PartialEq, Eq)]
pub struct Invocation {
    pub program: String,
    pub arguments: Vec<String>,
}

impl Invocation {
    /// Words of the command line.
    pub open spec fn line(self) -> Seq<Seq<char>> {
        seq![self.program@] + views(self.arguments@)
    }
}

/// Command lines of several programs.
pub open spec fn command_lines(invocations: Seq<Invocation>) -> Seq<Seq<Seq<char>>> {
    invocations.map_values(|i: Invocation| i.line())
}

/// Program with two arguments.
pub fn invocation2(program: &str, a: &str, b: &str) -> (r: Invocation)
    ensures
        r.line() == seq![program@, a@, b@],
{
    let mut arguments: Vec<String> = Vec::new();
    arguments.push(a.to_string());
    arguments.push(b.to_string());
    let r = Invocation { program: program.to_string(), arguments };
    assert(r.line() =~= seq![program@, a@, b@]);
    r
}

/// Program with three arguments.
pub fn invocation3(program: &str, a: &str, b: &str, c: &str) -> (r: Invocation)
    ensures
        r.line() == seq![program@, a@, b@, c@],
{
    let mut arguments: Vec<String> = Vec::new();
    arguments.push(a.to_string());
    arguments.push(b.to_string());
    arguments.push(c.to_string());
    let r = Invocation { program: program.to_string(), arguments };
    assert(r.line() =~= seq![program@, a@, b@, c@]);
    r
}

/// Command which runs a command line in a shell.
pub fn shell(command: &str) -> (r: Invocation)
    ensures
        r.line() == seq!["sh"@, "-c"@, command@],
{
    invocation2("sh", "-c", command)
}

/// Command which returns to the home screen, run when a launched application has exited.
pub fn return_home() -> (r: Invocation)
    ensures
        r.line() == seq!["catacomb"@, "msg"@, "focus-role"@, "home"@],
{
    invocation3("catacomb", "msg", "focus-role", "home")
}

/// A command line is the program followed by its arguments, in their order.
pub proof fn law_programs_come_before_their_arguments(invocation: Invocation, at: int)
    ensures
        invocation.line().len() == 1 + invocation.arguments.len(),
        invocation.line()[0] == invocation.program@,
        0 <= at < invocation.arguments.len() ==> invocation.line()[at + 1]
            == invocation.arguments[at]@,
{
}

/// Several programs have a command line each, in their order.
pub proof fn law_command_lines_keep_their_order(invocations: Seq<Invocation>, at: int)
    requires
        0 <= at < invocations.len(),
    ensures
        command_lines(invocations).len() == invocations.len(),
        command_lines(invocations)[at] == invocations[at].line(),
{
}

} // verus!
