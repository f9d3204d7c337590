//! What the arguments of an invocation ask for, and the lines in which the
//! tool answers.

use crate::text::equal;
use vstd::prelude::*;
use vstd::string::*;

verus! {

/// What an argument list asks for.
#[derive(Debug, PartialEq, Eq)]
pub enum Invocation {
    /// Not exactly a command and one input: only the usage is owed.
    Usage,
    /// Format `input`.
    Format { input: String },
    /// A command that the tool does not have.
    Unknown { command: String },
}

/// Reads an argument list, the program's own name first. Three arguments with
/// the command `format` ask for formatting; three with another command name
/// an unknown command; any other count asks for nothing.
pub fn parse_args(args: &Vec<String>) -> (r: Invocation)
    ensures
        args@.len() != 3 ==> r is Usage,
        args@.len() == 3 && args@[1]@ == "format"@ ==> (r matches Invocation::Format { input }
            && input@ == args@[2]@),
        args@.len() == 3 && args@[1]@ != "format"@ ==> (r matches Invocation::Unknown { command }
            && command@ == args@[1]@),
{
    if args.len() != 3 {
        Invocation::Usage
    } else if equal(args[1].as_str(), "format") {
        Invocation::Format { input: args[2].clone() }
    } else {
        Invocation::Unknown { command: args[1].clone() }
    }
}

/// The usage line.
pub fn usage() -> (r: &'static str)
    ensures
        r@ == "Usage: rusty_utils format <file_path>"@,
{
    "Usage: rusty_utils format <file_path>"
}

/// The line that names a command the tool does not have.
pub fn unknown_command(command: &str) -> (r: String)
    ensures
        r@ == "Unknown command: "@ + command@,
{
    String::from_str("Unknown command: ").concat(command)
}

/// The line that reports a run that went through.
pub fn success() -> (r: &'static str)
    ensures
        r@ == "Formatted successfully."@,
{
    "Formatted successfully."
}

/// The line that reports a run that failed with `message`.
pub fn failure(message: &str) -> (r: String)
    ensures
        r@ == "Error formatting: "@ + message@,
{
    String::from_str("Error formatting: ").concat(message)
}

} // verus!
