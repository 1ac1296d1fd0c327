//! The greeting that shows that the gateway is up.

use vstd::prelude::*;
use vstd::string::*;

verus! {

/// The body of the greeting.
pub const HELLO: &'static str = "Hello, World";

/// The body that answers a request for the greeting.
pub fn hello_world() -> (body: String)
    ensures
        body@ == HELLO@,
{
    String::from_str(HELLO)
}

} // verus!
