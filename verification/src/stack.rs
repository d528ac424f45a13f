use vstd::prelude::*;

verus! {

/// The call stack: sixteen return addresses and the stack pointer.
pub struct Stack {
    pub data: [u16; 16],
    pub sp: usize,
}

} // verus!
