//! What the front end is told when a newer release is found.

use vstd::prelude::*;

verus! {

/// A newer release (`update:available`).
#[derive(Debug, Clone, PartialEq)]
pub struct UpdateInfo {
    pub version: String,
}

} // verus!
