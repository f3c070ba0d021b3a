use vstd::prelude::*;

verus! {

/// The mathematical value of a timer pair: the two 8-bit countdown values.
pub struct TimerPair {
    pub delay: u8,
    pub sound: u8,
}

/// One countdown value after a tick: zero stays zero, anything else loses one.
pub open spec fn ticked(value: u8) -> u8 {
    if value > 0 {
        (value - 1) as u8
    } else {
        0
    }
}

impl TimerPair {
    /// The pair after one tick: each counter steps down on its own.
    pub open spec fn tick(self) -> TimerPair {
        TimerPair { delay: ticked(self.delay), sound: ticked(self.sound) }
    }
}

/// Delay and sound timers: two independent 8-bit counters that count down to
/// zero and stay there.
pub struct Timers {
    delay_timer: u8,
    sound_timer: u8,
}

impl View for Timers {
    type V = TimerPair;

    closed spec fn view(&self) -> TimerPair {
        TimerPair { delay: self.delay_timer, sound: self.sound_timer }
    }
}

impl Timers {
    pub fn new() -> (timers: Self)
        ensures
            timers@ == (TimerPair { delay: 0, sound: 0 }),
    {
        Timers { delay_timer: 0, sound_timer: 0 }
    }

    pub fn reset(&mut self)
        ensures
            final(self)@ == (TimerPair { delay: 0, sound: 0 }),
    {
        self.delay_timer = 0;
        self.sound_timer = 0;
    }

    pub fn get_delay_timer(&self) -> (value: u8)
        ensures
            value == self@.delay,
    {
        self.delay_timer
    }

    pub fn get_sound_timer(&self) -> (value: u8)
        ensures
            value == self@.sound,
    {
        self.sound_timer
    }

    pub fn set_delay_timer(&mut self, value: u8)
        ensures
            final(self)@ == (TimerPair { delay: value, sound: old(self)@.sound }),
    {
        self.delay_timer = value;
    }

    pub fn set_sound_timer(&mut self, value: u8)
        ensures
            final(self)@ == (TimerPair { delay: old(self)@.delay, sound: value }),
    {
        self.sound_timer = value;
    }

    /// One tick: each counter that is above zero goes down by exactly one.
    pub fn update_timers(&mut self)
        ensures
            final(self)@ == old(self)@.tick(),
    {
        if self.delay_timer > 0 {
            self.delay_timer -= 1;
        }
        if self.sound_timer > 0 {
            self.sound_timer -= 1;
        }
    }
}

/// A tick never takes a counter below zero, takes exactly one from a counter
/// that is above zero, and leaves a counter at zero where it is.
pub proof fn lemma_tick_counts_down(value: u8)
    ensures
        0 <= ticked(value),
        value > 0 ==> ticked(value) == value - 1,
        value == 0 ==> ticked(value) == 0,
{
}

} // verus!
