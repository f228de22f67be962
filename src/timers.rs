use vstd::prelude::*;

verus! {

/// The delay and sound timers: two 8-bit counters that count down to zero.
pub struct Timers {
    delay_timer: u8,
    sound_timer: u8,
}

/// One tick of a counter: down by one, but never below zero.
pub open spec fn tick_spec(t: u8) -> u8 {
    if t > 0 {
        (t - 1) as u8
    } else {
        0
    }
}

impl Timers {
    pub closed spec fn delay(&self) -> u8 {
        self.delay_timer
    }

    pub closed spec fn sound(&self) -> u8 {
        self.sound_timer
    }

    /// Both timers at zero.
    pub fn new() -> (r: Timers)
        ensures
            r.delay() == 0,
            r.sound() == 0,
    {
        Timers { delay_timer: 0, sound_timer: 0 }
    }

    pub fn get_delay_timer(&self) -> (r: u8)
        ensures
            r == self.delay(),
    {
        self.delay_timer
    }

    pub fn set_delay_timer(&mut self, value: u8)
        ensures
            final(self).delay() == value,
            final(self).sound() == old(self).sound(),
    {
        self.delay_timer = value;
    }

    pub fn get_sound_timer(&self) -> (r: u8)
        ensures
            r == self.sound(),
    {
        self.sound_timer
    }

    pub fn set_sound_timer(&mut self, value: u8)
        ensures
            final(self).sound() == value,
            final(self).delay() == old(self).delay(),
    {
        self.sound_timer = value;
    }

    /// Whether the sound timer is running, which is when the host should beep.
    pub fn is_sound_active(&self) -> (r: bool)
        ensures
            r == (self.sound() > 0),
    {
        self.sound_timer > 0
    }

    /// One tick: each timer that is above zero goes down by one.
    pub fn decrement(&mut self)
        ensures
            final(self).delay() == tick_spec(old(self).delay()),
            final(self).sound() == tick_spec(old(self).sound()),
    {
        if self.delay_timer > 0 {
            self.delay_timer = self.delay_timer - 1;
        }
        if self.sound_timer > 0 {
            self.sound_timer = self.sound_timer - 1;
        }
    }
}

impl Default for Timers {
    fn default() -> (r: Timers)
        ensures
            r.delay() == 0,
            r.sound() == 0,
    {
        Timers::new()
    }
}

} // verus!
