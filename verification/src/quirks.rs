//! Configurable variants of instruction behaviour.
use vstd::prelude::*;

verus! {

/// Behaviour switches, fixed when a machine is built.
#[derive(Clone, Copy, Debug)]
pub struct Quirks {
    /// If true, the shift instructions `8xy6` and `8xyE` first copy `Vy`
    /// into `Vx` and then shift; if false they shift `Vx` in place.
    pub shift_vy: bool,
}

impl Default for Quirks {
    fn default() -> (q: Self)
        ensures
            q == (Quirks { shift_vy: false }),
    {
        Self { shift_vy: false }
    }
}

} // verus!
