//! The one request handler of the shell: a greeting built around a name.

use vstd::prelude::*;
use vstd::string::*;

verus! {

/// The greeting sentence for `name`: the name, as it is, between a fixed
/// opening and a fixed ending.
pub open spec fn greeting(name: Seq<char>) -> Seq<char> {
    "Hello, "@ + name + "! You've been greeted from Rust!"@
}

/// Greets `name`. Every string is accepted and embedded unchanged.
pub fn greet(name: &str) -> (message: String)
    ensures
        message@ == greeting(name@),
{
    let mut message = String::from_str("Hello, ");
    message.append(name);
    message.append("! You've been greeted from Rust!");
    message
}

} // verus!
