//! A client that asks nothing of any vehicle.

use vstd::prelude::*;

verus! {

/// A measurement client that stands idle.
pub struct IdleClient {}

impl IdleClient {
    pub fn new() -> (r: IdleClient) {
        IdleClient {}
    }
}

} // verus!
