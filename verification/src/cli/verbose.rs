//! The verbose side channel: what is echoed when the user asks to see
//! more.

use crate::text::{joined, opt_view};
use vstd::prelude::*;

verus! {

/// Whether one invocation echoes what it does.
#[derive(Debug, Clone, Copy, PartialEq, Eq, Structural)]
pub struct Verbose {
    pub enabled: bool,
}

/// What stands before every echoed message.
pub const VERBOSE_TAG: &'static str = "[VERBOSE] ";

/// What is echoed when the flag is set up.
pub const VERBOSE_SET_UP: &'static str = "set up '-v' environment";

/// The line that echoes a message, where anything is echoed.
pub open spec fn echoed(enabled: bool, message: Seq<char>) -> Option<Seq<char>> {
    if enabled {
        Some(VERBOSE_TAG@ + message)
    } else {
        None
    }
}

impl Default for Verbose {
    fn default() -> (flag: Verbose)
        ensures
            !flag.enabled,
    {
        Verbose { enabled: false }
    }
}

/// Sets the verbose flag, and returns the line that says so where the flag
/// is now on.
pub fn set_verbose(flag: &mut Verbose, verbose: bool) -> (line: Option<String>)
    ensures
        final(flag).enabled == verbose,
        opt_view(line) == echoed(verbose, VERBOSE_SET_UP@),
{
    flag.enabled = verbose;
    print_verbose(flag, VERBOSE_SET_UP)
}

/// Returns the verbose flag.
pub fn is_verbose(flag: &Verbose) -> (verbose: bool)
    ensures
        verbose == flag.enabled,
{
    flag.enabled
}

/// The line to print for a message: the message under its tag where the
/// flag is on, and nothing where it is off.
pub fn print_verbose(flag: &Verbose, message: &str) -> (line: Option<String>)
    ensures
        opt_view(line) == echoed(flag.enabled, message@),
{
    if is_verbose(flag) {
        Some(joined(VERBOSE_TAG, message))
    } else {
        None
    }
}

} // verus!
