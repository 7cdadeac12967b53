//! A contract that answers with what it is given.

use vstd::prelude::*;

verus! {

/// The contract has no state.
#[derive(Clone, Copy, Debug, PartialEq, Eq, Structural)]
pub struct TestContract;

impl TestContract {
    /// Returns `name`.
    pub fn hello(name: String) -> (greeting: String)
        ensures
            greeting == name,
    {
        name
    }
}

} // verus!
