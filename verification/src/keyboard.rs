use vstd::prelude::*;
use crate::zeros::zeroed;

verus! {

/// The state of the sixteen keys of the hexadecimal keypad.
pub struct Keyboard {
    pub key: [u8; 16],
}

impl Keyboard {
    /// A keypad with no key pressed.
    pub fn new() -> (k: Self)
        ensures
            k.key@ == zeroed(16),
    {
        let k = Self { key: [0u8; 16] };
        assert(k.key@ =~= zeroed(16));
        k
    }
}

} // verus!
