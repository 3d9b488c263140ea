//! The record that the rate limiter keeps in the edge cache for one client.

use vstd::prelude::*;

verus! {

/// Requests seen from one client in the current window, and whether the
/// client is banned.
#[derive(Clone, Copy, Debug, PartialEq, Eq, Structural)]
pub struct Rate {
    pub count: u32,
    pub timeout: bool,
}

} // verus!
