//! The keypad as the host reports it.

use vstd::prelude::*;

verus! {

/// The state of the sixteen keys from the numbers of the keys that are
/// pressed; a number that names no key is passed over.
pub fn key_state(pressed: &[usize]) -> (keys: [bool; 16])
    ensures
        forall|k: int| 0 <= k < 16 ==> (#[trigger] keys[k] <==> pressed@.contains(k as usize)),
{
    let mut keys = [false; 16];
    let mut j: usize = 0;
    while j < pressed.len()
        invariant
            j <= pressed.len(),
            forall|k: int|
                0 <= k < 16 ==> (#[trigger] keys[k] <==> exists|m: int|
                    0 <= m < j && pressed@[m] == k),
        decreases pressed.len() - j,
    {
        let key: usize = pressed[j];
        if key < 16 {
            keys[key] = true;
        }
        j += 1;
    }
    proof {
        assert forall|k: int| 0 <= k < 16 implies (#[trigger] keys[k] <==> pressed@.contains(
            k as usize,
        )) by {
            if keys[k] {
                let m = choose|m: int| 0 <= m < j && pressed@[m] == k;
                assert(pressed@[m] == k as usize);
            }
            if pressed@.contains(k as usize) {
                let m = choose|m: int| 0 <= m < pressed@.len() && pressed@[m] == k as usize;
                assert(pressed@[m] == k);
            }
        }
    }
    keys
}

} // verus!
