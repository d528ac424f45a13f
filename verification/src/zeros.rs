use vstd::prelude::*;

verus! {

/// A run of `len` zero bytes.
pub open spec fn zeroed(len: nat) -> Seq<u8> {
    Seq::new(len, |_i: int| 0u8)
}

/// A run of `len` zero words.
pub open spec fn zeroed_words(len: nat) -> Seq<u16> {
    Seq::new(len, |_i: int| 0u16)
}

} // verus!
