//! The wall-clock-backed systick model.
//!
//! The real clock lives in the harness: every operation here takes the
//! current time in microseconds as an argument, so the arithmetic — how much
//! of a set timer remains, whether it overflowed — is exact whatever the
//! clock reports.  A reading earlier than the timer's start (the wall clock
//! stepped backwards) counts as no remaining time and as overflowed, as a
//! failed elapsed-time reading does on the host.

use vstd::prelude::*;

verus! {

/// A monotonic countdown timer over externally supplied clock readings.
#[derive(Debug, Copy, Clone, PartialEq, Eq, Structural)]
pub struct SysTick {
    pub start_time_us: u64,
    pub set_duration_us: u32,
    pub enabled: bool,
}

/// How much of the set timer remains at clock reading `now_us`: the set
/// duration minus the time elapsed since the timer was set, floored at zero;
/// zero also when the clock reads earlier than the start.
pub open spec fn spec_remaining_us(s: SysTick, now_us: u64) -> nat {
    if now_us < s.start_time_us {
        0
    } else if s.set_duration_us > now_us - s.start_time_us {
        (s.set_duration_us - (now_us - s.start_time_us)) as nat
    } else {
        0
    }
}

/// Whether at least `us` microseconds of the set timer remain at `now_us`.
pub open spec fn spec_greater_than(s: SysTick, now_us: u64, us: u32) -> bool {
    s.enabled && now_us >= s.start_time_us && spec_remaining_us(s, now_us) >= us
}

/// Whether the set timer has run out at `now_us`: more time elapsed than was
/// set, the clock stepped backwards, or the timer is disabled.
pub open spec fn spec_overflowed(s: SysTick, now_us: u64) -> bool {
    !s.enabled || now_us < s.start_time_us || now_us - s.start_time_us > s.set_duration_us
}

impl SysTick {
    /// A fresh, enabled timer with nothing set.
    pub fn new() -> (r: SysTick)
        ensures
            r.start_time_us == 0,
            r.set_duration_us == 0,
            r.enabled,
    {
        SysTick { start_time_us: 0, set_duration_us: 0, enabled: true }
    }

    /// Starts a countdown of `us` microseconds at clock reading `now_us`.
    pub fn set_timer(&mut self, now_us: u64, us: u32)
        ensures
            final(self).start_time_us == now_us,
            final(self).set_duration_us == us,
            final(self).enabled == old(self).enabled,
    {
        self.start_time_us = now_us;
        self.set_duration_us = us;
    }

    /// Whether at least `us` microseconds of the set timer remain at `now_us`.
    pub fn greater_than(&self, now_us: u64, us: u32) -> (r: bool)
        ensures
            r == spec_greater_than(*self, now_us, us),
    {
        if !self.enabled {
            return false;
        }
        if now_us < self.start_time_us {
            return false;
        }
        let elapsed = now_us - self.start_time_us;
        let remaining: u64 = if self.set_duration_us as u64 > elapsed {
            self.set_duration_us as u64 - elapsed
        } else {
            0
        };
        remaining >= us as u64
    }

    /// Whether the set timer has run out at `now_us`.
    pub fn overflowed(&self, now_us: u64) -> (r: bool)
        ensures
            r == spec_overflowed(*self, now_us),
    {
        if !self.enabled {
            return true;
        }
        if now_us < self.start_time_us {
            return true;
        }
        now_us - self.start_time_us > self.set_duration_us as u64
    }

    /// Disables the timer and clears the countdown to zero at `now_us`.
    pub fn reset(&mut self, now_us: u64)
        ensures
            final(self).start_time_us == now_us,
            final(self).set_duration_us == 0,
            !final(self).enabled,
    {
        self.enabled = false;
        self.set_timer(now_us, 0);
    }

    /// Enables the timer.  Timer interrupts are not part of this emulation,
    /// so asking for them is refused by contract.
    pub fn enable(&mut self, with_interrupt: bool)
        requires
            !with_interrupt,
        ensures
            final(self).start_time_us == old(self).start_time_us,
            final(self).set_duration_us == old(self).set_duration_us,
            final(self).enabled,
    {
        self.enabled = true;
    }

    /// How long `sleep` may block at `now_us`: the remaining countdown, or
    /// nothing when the timer is disabled or already overflowed.
    pub fn get_systick_left(&self, now_us: u64) -> (r: Option<u64>)
        ensures
            (self.enabled && now_us >= self.start_time_us && now_us - self.start_time_us
                <= self.set_duration_us) <==> r is Some,
            r matches Some(left) ==> left == spec_remaining_us(*self, now_us),
    {
        if !self.enabled {
            return None;
        }
        if now_us < self.start_time_us {
            return None;
        }
        let elapsed = now_us - self.start_time_us;
        if elapsed > self.set_duration_us as u64 {
            return None;
        }
        Some(self.set_duration_us as u64 - elapsed)
    }
}

/// Systick monotonicity: after `set_timer(T)`, `greater_than(u)` is false at
/// every clock reading for any `u` beyond `T`, and as the clock advances
/// `greater_than` only ever passes from true to false, never back.
pub proof fn lemma_systick_monotone(s: SysTick, u: u32, now1: u64, now2: u64)
    requires
        s.start_time_us <= now1,
        now1 <= now2,
    ensures
        u > s.set_duration_us ==> !spec_greater_than(s, now1, u),
        spec_greater_than(s, now2, u) ==> spec_greater_than(s, now1, u),
{
    assert(spec_remaining_us(s, now1) <= s.set_duration_us);
    if spec_greater_than(s, now2, u) {
        assert(spec_remaining_us(s, now2) <= spec_remaining_us(s, now1));
    }
}

} // verus!
