//! Free-running millisecond clock folded from a 16-bit 32768 Hz timer: each reading's tick delta
//! is converted to whole milliseconds with a sub-millisecond carry, so there is no rounding drift.
use vstd::prelude::*;

verus! {

/// Timer control word: ACLK source, continuous mode, counter clear.
pub const TB0CTL_START: u16 = 0x0100 | 0x0020 | 0x0004;

/// Millisecond clock state.
pub struct Clock {
    last: u16,
    ms: u32,
    sub: u32,
}

impl Clock {
    /// The previous timer sample.
    pub closed spec fn last_sample(&self) -> u16 {
        self.last
    }

    /// Whole milliseconds since start.
    pub closed spec fn millis(&self) -> u32 {
        self.ms
    }

    /// The carried fraction of a millisecond, in units of 1/32768 ms.
    pub closed spec fn carry(&self) -> u32 {
        self.sub
    }

    /// The carry is always below one millisecond.
    pub closed spec fn wf(&self) -> bool {
        self.sub < 32768
    }

    /// A zeroed clock (the timer has just been started and cleared).
    pub fn start() -> (c: Clock)
        ensures
            c.wf(),
            c.last_sample() == 0,
            c.millis() == 0,
            c.carry() == 0,
    {
        Clock { last: 0, ms: 0, sub: 0 }
    }

    /// Fold in the timer sample `t` and return the milliseconds since start (a `u32` count that
    /// wraps, as the scheduler's deadlines expect). The elapsed ticks since the previous sample
    /// contribute `ticks * 1000 / 32768` ms exactly, the remainder being carried to the next call.
    pub fn now_ms(&mut self, t: u16) -> (ms: u32)
        requires
            old(self).wf(),
        ensures
            final(self).wf(),
            final(self).last_sample() == t,
            ms == final(self).millis(),
            ({
                let total = old(self).carry() + 1000 * vstd::wrapping::u16_specs::wrapping_sub(t, old(self).last_sample());
                &&& final(self).carry() == total % 32768
                &&& final(self).millis() == vstd::wrapping::u32_specs::wrapping_add(old(self).millis(), (total / 32768) as u32)
            }),
    {
        let d = t.wrapping_sub(self.last) as u32;
        self.last = t;
        let sub = self.sub + d * 1000;
        let whole = sub >> 15;
        assert(whole == sub / 32768) by (bit_vector)
            requires whole == sub >> 15;
        self.ms = self.ms.wrapping_add(whole);
        let rest = sub & 0x7FFF;
        assert(rest == sub % 32768) by (bit_vector)
            requires rest == sub & 0x7FFF;
        self.sub = rest;
        self.ms
    }
}

/// No drift: while the millisecond count does not wrap, the count and the carry together hold
/// exactly the elapsed ticks times 1000 (in 1/32768 ms).
pub proof fn clock_has_no_drift(before: Clock, after: Clock, t: u16)
    requires
        before.wf(),
        after.last_sample() == t,
        ({
            let total = before.carry() + 1000 * vstd::wrapping::u16_specs::wrapping_sub(t, before.last_sample());
            &&& after.carry() == total % 32768
            &&& after.millis() == vstd::wrapping::u32_specs::wrapping_add(before.millis(), (total / 32768) as u32)
        }),
        before.millis() as int + (before.carry() + 1000 * vstd::wrapping::u16_specs::wrapping_sub(t, before.last_sample())) / 32768 <= u32::MAX,
    ensures
        after.millis() as int * 32768 + after.carry()
            == before.millis() as int * 32768 + before.carry()
                + 1000 * vstd::wrapping::u16_specs::wrapping_sub(t, before.last_sample()),
{
}

} // verus!
