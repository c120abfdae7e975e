//! Scanning a buffer for an array of bytes.

use crate::bytes::{contains_bytes, find_bytes, occurs_at};
use vstd::prelude::*;

verus! {

/// The first position at which `target` occurs in `source`, and zero where it
/// does not occur.
pub fn aob_scan(target: Vec<u8>, source: Vec<u8>) -> (position: usize)
    ensures
        contains_bytes(source@, target@) ==> occurs_at(source@, target@, position as int)
            && forall|j: int| 0 <= j < position ==> !occurs_at(source@, target@, j),
        !contains_bytes(source@, target@) ==> position == 0,
{
    match find_bytes(source.as_slice(), target.as_slice()) {
        Some(position) => position,
        None => 0,
    }
}

} // verus!
