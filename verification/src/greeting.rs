//! The greeting that the shell shows on request.

use vstd::prelude::*;
use vstd::string::StringExecFns;

verus! {

/// What the greeting says before the name.
pub const GREETING_HEAD: &'static str = "Hello, ";

/// What the greeting says after the name.
pub const GREETING_TAIL: &'static str = "! You've been greeted from Rust!";

/// The greeting for `name`.
pub fn greet(name: &str) -> (text: String)
    ensures
        text@ == GREETING_HEAD@ + name@ + GREETING_TAIL@,
{
    let mut text = String::from_str(GREETING_HEAD);
    text.append(name);
    text.append(GREETING_TAIL);
    text
}

} // verus!
