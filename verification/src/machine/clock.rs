//! The four-phase clock of the Mic-1.
use vstd::prelude::*;

verus! {

/// The four phases of one microinstruction cycle.
#[derive(Clone, Copy, Debug, PartialEq, Eq, Hash, Structural)]
pub enum Subtick {
    Load,
    Gate,
    Operation,
    Store,
}

/// The phase after `s`: Load, Gate, Operation, Store, then Load again.
pub open spec fn next_subtick(s: Subtick) -> Subtick {
    match s {
        Subtick::Load => Subtick::Gate,
        Subtick::Gate => Subtick::Operation,
        Subtick::Operation => Subtick::Store,
        Subtick::Store => Subtick::Load,
    }
}

impl Subtick {
    /// The phase that follows this one.
    pub fn next_tick(&self) -> (r: Self)
        ensures
            r == next_subtick(*self),
    {
        match self {
            Subtick::Load => Subtick::Gate,
            Subtick::Gate => Subtick::Operation,
            Subtick::Operation => Subtick::Store,
            Subtick::Store => Subtick::Load,
        }
    }

    /// Whether this is the Load phase.
    pub fn is_load(&self) -> (r: bool)
        ensures
            r == (*self is Load),
    {
        match self {
            Subtick::Load => true,
            _ => false,
        }
    }

    /// Whether this is the phase that puts registers on the buses.
    pub fn is_gate(&self) -> (r: bool)
        ensures
            r == (*self is Gate),
    {
        match self {
            Subtick::Gate => true,
            _ => false,
        }
    }

    /// Whether this is the Operation phase.
    pub fn is_operation(&self) -> (r: bool)
        ensures
            r == (*self is Operation),
    {
        match self {
            Subtick::Operation => true,
            _ => false,
        }
    }

    /// Whether this is the Store phase.
    pub fn is_store(&self) -> (r: bool)
        ensures
            r == (*self is Store),
    {
        match self {
            Subtick::Store => true,
            _ => false,
        }
    }
}

impl Default for Subtick {
    fn default() -> (r: Self)
        ensures
            r == Subtick::Load,
    {
        Subtick::Load
    }
}

/// The phases come round again after four steps.
pub proof fn lemma_subtick_period(s: Subtick)
    ensures
        next_subtick(next_subtick(next_subtick(next_subtick(s)))) == s,
        next_subtick(s) != s,
{
}

/// The clock: the number of the current cycle and the phase within it.
#[derive(Clone, Copy, Debug, PartialEq, Eq, Hash)]
pub struct Clock {
    tick: usize,
    subtick: Subtick,
}

/// The clock as a pair of cycle number and phase.
pub struct ClockView {
    pub tick: nat,
    pub subtick: Subtick,
}

impl View for Clock {
    type V = ClockView;

    closed spec fn view(&self) -> ClockView {
        ClockView { tick: self.tick as nat, subtick: self.subtick }
    }
}

/// The clock one phase later: the cycle number grows by one when the phase
/// comes round to Load.
pub open spec fn pulsed(c: ClockView) -> ClockView {
    let s = next_subtick(c.subtick);
    ClockView { tick: if s is Load { c.tick + 1 } else { c.tick }, subtick: s }
}

/// Whether one more phase fits: the cycle number must stay within a `usize`.
pub open spec fn can_pulse(c: ClockView) -> bool {
    c.subtick is Store ==> c.tick < usize::MAX
}

/// Four phases make one cycle: after four pulses the phase is the same and
/// the cycle number is one higher.
pub proof fn lemma_four_pulses_one_cycle(c: ClockView)
    ensures
        pulsed(pulsed(pulsed(pulsed(c)))) == (ClockView { tick: c.tick + 1, subtick: c.subtick }),
{
}

impl Clock {
    /// The clock reading `tick` in phase `subtick`.
    pub fn new(tick: usize, subtick: Subtick) -> (r: Self)
        ensures
            r@ == (ClockView { tick: tick as nat, subtick }),
    {
        Clock { tick, subtick }
    }

    /// The number of the current cycle.
    pub fn tick(&self) -> (r: usize)
        ensures
            r == self@.tick,
    {
        self.tick
    }

    /// The current phase.
    pub fn subtick(&self) -> (r: Subtick)
        ensures
            r == self@.subtick,
    {
        self.subtick
    }

    /// Sets the cycle number; the phase is kept.
    pub fn set_tick(&mut self, tick: usize)
        ensures
            final(self)@ == (ClockView { tick: tick as nat, subtick: old(self)@.subtick }),
    {
        self.tick = tick;
    }

    /// Sets the phase; the cycle number is kept.
    pub fn set_subtick(&mut self, subtick: Subtick)
        ensures
            final(self)@ == (ClockView { tick: old(self)@.tick, subtick }),
    {
        self.subtick = subtick;
    }

    /// Advances the clock by one phase.
    pub fn pulse(&mut self)
        requires
            can_pulse(old(self)@),
        ensures
            final(self)@ == pulsed(old(self)@),
    {
        self.subtick = self.subtick.next_tick();
        if self.subtick.is_load() {
            self.tick = self.tick + 1;
        }
    }
}

impl Default for Clock {
    /// A new clock stands at the Load phase of cycle 1.
    fn default() -> (r: Self)
        ensures
            r@ == (ClockView { tick: 1, subtick: Subtick::Load }),
    {
        Clock { tick: 1, subtick: Subtick::Load }
    }
}

} // verus!
