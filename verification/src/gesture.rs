//! Activation gestures: a light is addressed only while every key of its
//! bound key set is held.

use vstd::prelude::*;

verus! {

/// A gesture is active when it binds at least one key and every bound key is
/// currently held. An empty binding never activates, so a light with no keys
/// can never be rotated by accident.
pub open spec fn gesture_active(bindings: Seq<u32>, held: Seq<u32>) -> bool {
    &&& bindings.len() > 0
    &&& forall|i: int| 0 <= i < bindings.len() ==> held.contains(bindings[i])
}

/// Whether `key` occurs in the held-key snapshot.
fn key_held(held: &Vec<u32>, key: u32) -> (r: bool)
    ensures
        r == held@.contains(key),
{
    let mut j: usize = 0;
    while j < held.len()
        invariant
            j <= held@.len(),
            forall|k: int| 0 <= k < j ==> held@[k] != key,
        decreases held@.len() - j,
    {
        if held[j] == key {
            assert(held@[j as int] == key);
            return true;
        }
        j = j + 1;
    }
    false
}

/// Whether the whole key set `bindings` is currently held, i.e. whether the
/// gesture it describes is active this frame.
pub fn gesture_is_active(bindings: &Vec<u32>, held: &Vec<u32>) -> (r: bool)
    ensures
        r == gesture_active(bindings@, held@),
{
    if bindings.len() == 0 {
        return false;
    }
    let mut i: usize = 0;
    while i < bindings.len()
        invariant
            i <= bindings@.len(),
            forall|k: int| 0 <= k < i ==> held@.contains(bindings@[k]),
        decreases bindings@.len() - i,
    {
        if !key_held(held, bindings[i]) {
            return false;
        }
        i = i + 1;
    }
    true
}

} // verus!
