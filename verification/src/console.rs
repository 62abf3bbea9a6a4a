//! The logging bridge: two functions that print their arguments as one line.

use vstd::prelude::*;
use crate::error::EngineError;
use crate::hostcall::{get_args_as_str, joined, thrown, to_js_error};
use crate::value::GuestValue;

verus! {

/// Where a console function writes.
#[derive(Clone, Copy, Debug, PartialEq, Eq, Structural)]
pub enum ConsoleStream {
    /// Standard output.
    Stdout,
    /// Standard error.
    Stderr,
}

/// A console function: its name and the stream it writes to.
pub struct ConsoleFunction {
    pub name: String,
    pub stream: ConsoleStream,
}

/// Name of the global object that holds the console functions.
pub fn surface_name() -> (r: String)
    ensures
        r@ == "console"@,
{
    "console".to_owned()
}

/// The console functions: `print`, which writes to standard output, and `print_error`, which
/// writes to standard error.
pub fn build() -> (r: Vec<ConsoleFunction>)
    ensures
        r@.len() == 2,
        r@[0].name@ == "print"@ && r@[0].stream == ConsoleStream::Stdout,
        r@[1].name@ == "print_error"@ && r@[1].stream == ConsoleStream::Stderr,
{
    let mut out: Vec<ConsoleFunction> = Vec::new();
    out.push(ConsoleFunction { name: "print".to_owned(), stream: ConsoleStream::Stdout });
    out.push(ConsoleFunction { name: "print_error".to_owned(), stream: ConsoleStream::Stderr });
    out
}

/// The line that a console function emits for `args`, or the error raised into guest code
/// where an argument is not a string.
pub fn line(args: &Vec<GuestValue>) -> (r: Result<String, EngineError>)
    ensures
        match r {
            Ok(s) => joined(args@) == Some(s@),
            Err(e) => joined(args@) is None && e@ == thrown("Failed to convert args to string"@),
        },
{
    match get_args_as_str(args) {
        Ok(s) => Ok(s),
        Err(e) => Err(to_js_error(e)),
    }
}

} // verus!
