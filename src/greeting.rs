//! The greeting command: text only, no shared state.

use vstd::prelude::*;
use vstd::string::StringExecFns;

verus! {

/// The greeting for `name`: the name is echoed as given, empty or not.
pub open spec fn greeting_of(name: Seq<char>) -> Seq<char> {
    "Hello, "@ + name + "! You've been greeted from Rust!"@
}

/// Greets `name`.
pub fn greet(name: &str) -> (r: String)
    ensures
        r@ == greeting_of(name@),
{
    let mut r = "Hello, ".to_owned();
    r.append(name);
    r.append("! You've been greeted from Rust!");
    r
}

} // verus!
