//! The request handlers: thin orchestration over the stores and the
//! external primitives, one function per route.

use vstd::prelude::*;

pub mod admin;
pub mod course;
pub mod user;

verus! {

/// The health-check greeting.
pub fn hello_world() -> (r: &'static str)
    ensures
        r@ == "hello_world!"@,
{
    "hello_world!"
}

} // verus!
