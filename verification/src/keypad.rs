//! The sixteen-key pad: which key a key-wait instruction picks up.
use vstd::prelude::*;

verus! {

/// The highest-numbered pressed key among the first `n` keys, or `-1` if
/// none of them is pressed. A key is pressed when its flag is nonzero.
pub open spec fn last_pressed(keys: Seq<u8>, n: int) -> int
    decreases n,
{
    if n <= 0 {
        -1
    } else if keys[n - 1] != 0 {
        n - 1
    } else {
        last_pressed(keys, n - 1)
    }
}

/// `last_pressed` picks a pressed key, no pressed key lies above it, and it
/// is `-1` exactly when no key is pressed.
pub proof fn lemma_last_pressed(keys: Seq<u8>, n: int)
    requires
        0 <= n <= keys.len(),
    ensures
        -1 <= last_pressed(keys, n) < n,
        last_pressed(keys, n) == -1 <==> (forall|k: int| 0 <= k < n ==> keys[k] == 0),
        last_pressed(keys, n) >= 0 ==> keys[last_pressed(keys, n)] != 0,
        forall|k: int| last_pressed(keys, n) < k < n ==> keys[k] == 0,
    decreases n,
{
    if n > 0 {
        lemma_last_pressed(keys, n - 1);
    }
}

/// Scans all sixteen keys and returns the number of the pressed one; the
/// highest number wins when several are pressed at once.
pub fn scan_keys(keypad: &[u8; 16]) -> (key: Option<u8>)
    ensures
        key is None <==> last_pressed(keypad@, 16) == -1,
        key matches Some(k) ==> k as int == last_pressed(keypad@, 16),
{
    let mut found: Option<u8> = None;
    let mut k: u8 = 0;
    while k < 16
        invariant
            k <= 16,
            found is None <==> last_pressed(keypad@, k as int) == -1,
            found matches Some(f) ==> f as int == last_pressed(keypad@, k as int),
        decreases 16 - k,
    {
        if keypad[k as usize] != 0 {
            found = Some(k);
        }
        k += 1;
    }
    found
}

} // verus!
