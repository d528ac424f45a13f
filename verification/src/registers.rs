use vstd::prelude::*;
use crate::zeros::zeroed;

verus! {

/// The sixteen general registers V0..VF, the index register I and the
/// program counter.
pub struct Register {
    pub vx: [u8; 16],
    /// index register
    pub i: u16,
    /// program counter
    pub pc: u16,
}

impl Register {
    /// All registers zero, the program counter included.
    pub fn new() -> (r: Self)
        ensures
            r.vx@ == zeroed(16),
            r.i == 0,
            r.pc == 0,
    {
        let r = Self { vx: [0u8; 16], i: 0, pc: 0 };
        assert(r.vx@ =~= zeroed(16));
        r
    }
}

} // verus!
