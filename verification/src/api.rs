//! The trivial root route of the diagnostic HTTP surface.

use vstd::prelude::*;

verus! {

/// Body of the root route: a fixed greeting.
pub fn index() -> (r: &'static str)
    ensures
        r@ == "Hello, world!"@,
{
    "Hello, world!"
}

} // verus!
