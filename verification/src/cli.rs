//! The launcher as a program: what it reads from its command line and what
//! it prints when it is done.
//!
//! It takes no flags, options or subcommands of its own. Every word after
//! the program's name belongs to the command to launch. A launch that
//! succeeds prints nothing; one that fails prints a single line, which is
//! the same whatever failed.

use vstd::prelude::*;
use crate::error::{diagnostic_line, TracersError};

verus! {

/// The words of a command line that follow the program's own name, in
/// order.
pub open spec fn words_after_name(line: Seq<String>) -> Seq<String> {
    if line.len() == 0 {
        line
    } else {
        line.drop_first()
    }
}

/// The arguments of the command to launch, taken from the program's own
/// command line: all of it but the program's name.
pub fn arguments(line: Vec<String>) -> (args: Vec<String>)
    ensures
        args@ == words_after_name(line@),
{
    let mut args = line;
    if args.len() > 0 {
        args.remove(0);
    }
    args
}

/// The line to print when a launch has ended with `result`, if there is one
/// to print.
pub fn report(result: Result<(), TracersError>) -> (line: Option<String>)
    ensures
        match line {
            Some(text) => result is Err && text@ == diagnostic_line(),
            None => result is Ok,
        },
{
    match result {
        Ok(()) => None,
        Err(failure) => Some(failure.diagnostic()),
    }
}

} // verus!
