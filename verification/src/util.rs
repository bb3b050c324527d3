//! Checking the command line.

use vstd::prelude::*;
use vstd::string::StringExecFns;

verus! {

/// The command line did not consist of the program name and one path.
#[derive(Debug, Clone, Copy)]
pub struct ArgError;

impl ArgError {
    /// What to tell the user.
    pub fn message(&self) -> (text: String)
        ensures
            text@ == "Invalid arguments!, usage: chipp <path_to_rom>"@,
    {
        String::from_str("Invalid arguments!, usage: chipp <path_to_rom>")
    }
}

/// Picks the path of the program image from the command line: `args` has to
/// be the program name followed by exactly one argument, which is returned.
pub fn validate_args(args: &Vec<String>) -> (r: Result<String, ArgError>)
    ensures
        args.len() == 2 ==> r is Ok && r->Ok_0 == args[1],
        args.len() != 2 ==> r is Err,
{
    if args.len() != 2 {
        Err(ArgError)
    } else {
        Ok(args[1].clone())
    }
}

} // verus!
