//! The text of a greeting.

use vstd::prelude::*;
use vstd::string::*;

verus! {

/// The greeting for `name`: the name between a fixed salutation and an
/// exclamation mark.
pub open spec fn greeting_text(name: Seq<char>) -> Seq<char> {
    "Hello, "@ + name + "!"@
}

/// Builds the greeting for `name`.
pub fn greeting(name: &str) -> (text: String)
    ensures
        text@ == greeting_text(name@),
{
    let mut text = String::from_str("Hello, ");
    text.append(name);
    text.append("!");
    text
}

} // verus!
