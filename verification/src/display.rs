use vstd::prelude::*;
use crate::zeros::zeroed;

verus! {

/// The 64 x 32 monochrome frame buffer, one byte per pixel.
pub struct Display {
    graphic: [u8; 2048],
}

impl View for Display {
    type V = Seq<u8>;

    closed spec fn view(&self) -> Seq<u8> {
        self.graphic@
    }
}

impl Display {
    /// A blank screen: every one of the 64 * 32 pixels is off.
    pub fn new() -> (d: Self)
        ensures
            d@ == zeroed(2048),
    {
        let d = Self { graphic: [0u8; 2048] };
        assert(d.graphic@ =~= zeroed(2048));
        d
    }

    /// The pixels, row by row.
    pub fn pixels(&self) -> (p: &[u8; 2048])
        ensures
            p@ == self@,
    {
        &self.graphic
    }
}

} // verus!
