//! Runtime support: the header of a reference-counted object
use vstd::prelude::*;
use std::sync::atomic::AtomicI32;

verus! {

/// The header in front of a reference-counted object: its reference count
pub struct RCHeader {
    /// The number of references to the object
    pub ref_count: AtomicI32,
}

impl RCHeader {
    /// The header of a new object, counting its one reference
    pub fn new() -> (res: Self) {
        RCHeader { ref_count: AtomicI32::new(1) }
    }
}

} // verus!
