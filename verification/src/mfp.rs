//! MFP (Multi-Function Peripheral) timers A, B and C of the Atari ST.

use vstd::prelude::*;

verus! {

/// The state of a timer, as the contracts see it.
pub struct TimerView {
    pub control: u8,
    pub data: u8,
    pub counter: u8,
    pub active: bool,
}

/// An MFP timer: a countdown from its data register, running while bit 0 of
/// its control register is set.
#[derive(Debug, Clone, Copy)]
pub struct Timer {
    control: u8,
    data: u8,
    counter: u8,
    active: bool,
}

impl View for Timer {
    type V = TimerView;

    closed spec fn view(&self) -> TimerView {
        TimerView { control: self.control, data: self.data, counter: self.counter, active: self.active }
    }
}

/// The timer state with every field zero and the timer stopped.
pub open spec fn timer_idle() -> TimerView {
    TimerView { control: 0, data: 0, counter: 0, active: false }
}

impl Timer {
    /// A stopped timer with all registers zero.
    pub fn new() -> (t: Self)
        ensures
            t@ == timer_idle(),
    {
        Timer { control: 0, data: 0, counter: 0, active: false }
    }

    /// Back to a stopped timer with all registers zero.
    pub fn reset(&mut self)
        ensures
            final(self)@ == timer_idle(),
    {
        self.control = 0;
        self.data = 0;
        self.counter = 0;
        self.active = false;
    }

    /// Writes the control register; bit 0 starts or stops the timer.
    pub fn set_control(&mut self, value: u8)
        ensures
            final(self)@ == (TimerView { control: value, active: value & 1 != 0, ..old(self)@ }),
    {
        self.control = value;
        self.active = (value & 0x01) != 0;
    }

    /// The control register.
    pub fn get_control(&self) -> (r: u8)
        ensures
            r == self@.control,
    {
        self.control
    }

    /// Writes the data register, which also reloads the countdown.
    pub fn set_data(&mut self, value: u8)
        ensures
            final(self)@ == (TimerView { data: value, counter: value, ..old(self)@ }),
    {
        self.data = value;
        self.counter = value;
    }

    /// The data register.
    pub fn get_data(&self) -> (r: u8)
        ensures
            r == self@.data,
    {
        self.data
    }

    /// One cycle: a running timer counts down by one, stopping at zero (no reload).
    pub fn clock(&mut self)
        ensures
            old(self)@.active && old(self)@.counter > 0 ==> final(self)@ == (TimerView {
                counter: (old(self)@.counter - 1) as u8,
                ..old(self)@
            }),
            !(old(self)@.active && old(self)@.counter > 0) ==> final(self)@ == old(self)@,
    {
        if !self.active {
            return;
        }
        if self.counter > 0 {
            self.counter = self.counter - 1;
        }
    }

    /// Whether the timer is running and has counted down to zero.
    pub fn has_expired(&self) -> (r: bool)
        ensures
            r == (self@.counter == 0 && self@.active),
    {
        self.counter == 0 && self.active
    }

    /// Whether the timer is running.
    pub fn is_active(&self) -> (r: bool)
        ensures
            r == self@.active,
    {
        self.active
    }
}

impl Default for Timer {
    fn default() -> (t: Self)
        ensures
            t@ == timer_idle(),
    {
        Self::new()
    }
}

/// Counted down `n` cycles: a running timer loaded with `n` or less has expired.
pub proof fn lemma_countdown_expires(t: TimerView, n: nat)
    requires
        t.active,
        t.counter <= n,
    ensures
        countdown(t, n).counter == 0,
        countdown(t, n).active,
    decreases n,
{
    if n > 0 {
        lemma_countdown_expires(clock_spec(t), (n - 1) as nat);
    }
}

/// The timer state after one cycle.
pub open spec fn clock_spec(t: TimerView) -> TimerView {
    if t.active && t.counter > 0 {
        TimerView { counter: (t.counter - 1) as u8, ..t }
    } else {
        t
    }
}

/// The timer state after `n` cycles.
pub open spec fn countdown(t: TimerView, n: nat) -> TimerView
    decreases n,
{
    if n == 0 {
        t
    } else {
        countdown(clock_spec(t), (n - 1) as nat)
    }
}

/// The three MFP timers.
#[derive(Debug, Clone, Copy)]
pub struct Mfp {
    /// Timer A.
    pub timer_a: Timer,
    /// Timer B.
    pub timer_b: Timer,
    /// Timer C.
    pub timer_c: Timer,
}

impl Mfp {
    /// Three stopped timers.
    pub fn new() -> (m: Self)
        ensures
            m.timer_a@ == timer_idle(),
            m.timer_b@ == timer_idle(),
            m.timer_c@ == timer_idle(),
    {
        Mfp { timer_a: Timer::new(), timer_b: Timer::new(), timer_c: Timer::new() }
    }

    /// Resets all three timers.
    pub fn reset(&mut self)
        ensures
            final(self).timer_a@ == timer_idle(),
            final(self).timer_b@ == timer_idle(),
            final(self).timer_c@ == timer_idle(),
    {
        self.timer_a.reset();
        self.timer_b.reset();
        self.timer_c.reset();
    }

    /// Clocks all three timers by one cycle.
    pub fn clock(&mut self)
        ensures
            final(self).timer_a@ == clock_spec(old(self).timer_a@),
            final(self).timer_b@ == clock_spec(old(self).timer_b@),
            final(self).timer_c@ == clock_spec(old(self).timer_c@),
    {
        self.timer_a.clock();
        self.timer_b.clock();
        self.timer_c.clock();
    }
}

impl Default for Mfp {
    fn default() -> (m: Self)
        ensures
            m.timer_a@ == timer_idle(),
            m.timer_b@ == timer_idle(),
            m.timer_c@ == timer_idle(),
    {
        Self::new()
    }
}

} // verus!
