use vstd::prelude::*;

verus! {

/// The two count-down timers of the machine.
pub struct Timers {
    pub delay_timer: u8,
    pub sound_timer: u8,
}

impl Timers {
    /// Creates the timers with the given starting values.
    pub fn new(delay: u8, sound: u8) -> (t: Self)
        ensures
            t.delay_timer == delay,
            t.sound_timer == sound,
    {
        Self { delay_timer: delay, sound_timer: sound }
    }
}

} // verus!
