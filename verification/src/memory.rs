use vstd::prelude::*;
use crate::zeros::zeroed;

verus! {

/// The machine's 4 KiB of memory: the 512 bytes reserved for the
/// interpreter (which hold the font) and the 3584 bytes of program space.
pub struct Ram {
    pub size: u32,
    pub interp: [u8; 512],
    pub program: [u8; 3584],
}

impl Ram {
    /// Zeroed memory of 4096 bytes.
    pub fn new() -> (r: Self)
        ensures
            r.size == 4096,
            r.interp@ == zeroed(512),
            r.program@ == zeroed(3584),
    {
        let r = Self { size: 4096, interp: [0u8; 512], program: [0u8; 3584] };
        assert(r.interp@ =~= zeroed(512));
        assert(r.program@ =~= zeroed(3584));
        r
    }
}

} // verus!
