//! The demonstration greeting the front-end calls for wiring smoke tests.

use vstd::prelude::*;

verus! {

/// Returns the literal greeting `"Hello, {name}! You've been greeted
/// from Rust!"`.
pub fn greet(name: &str) -> (r: String)
    ensures
        r@ == "Hello, "@ + name@ + "! You've been greeted from Rust!"@,
{
    let mut r = String::from_str("Hello, ");
    r.append(name);
    r.append("! You've been greeted from Rust!");
    r
}

} // verus!
