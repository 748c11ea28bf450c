//! The arithmetic of a monotonic clock that runs on a 24-bit hardware
//! counter ticking 32768 times a second.
//!
//! The counter wraps every 512 seconds and raises an overflow event when it
//! does. The clock counts the overflows and puts its count above the 24
//! bits of the counter. Reading and writing the registers is the caller's
//! part: what was read is passed in, what has to be written comes back.

use vstd::prelude::*;

verus! {

/// Largest value of the hardware counter.
pub const RTC_MAX: u32 = 0x00ff_ffff;

/// Ticks from `earlier` to `instant` on a clock whose 64-bit tick count may
/// wrap: the difference modulo the range, unless it is more than half the
/// range, in which case `instant` counts as lying before `earlier`.
pub open spec fn duration_since(instant: u64, earlier: u64) -> Option<u64> {
    let diff = vstd::wrapping::u64_specs::wrapping_sub(instant, earlier);
    if diff > u64::MAX / 2 {
        None
    } else {
        Some(diff)
    }
}

/// The number of overflows so far when the clock has counted `overflow` of
/// them and `overflowed` says whether one more is pending.
pub open spec fn overflows(overflow: u32, overflowed: bool) -> u32 {
    if overflowed {
        vstd::wrapping::u32_specs::wrapping_add(overflow, 1)
    } else {
        overflow
    }
}

/// The time in ticks when the clock has counted `overflow` overflows, the
/// counter reads `counter` and `overflowed` says whether an overflow event
/// is pending that the clock has not counted yet.
pub open spec fn ticks_at(overflow: u32, counter: u32, overflowed: bool) -> u64 {
    ((overflows(overflow, overflowed) as u64) << 24) | (counter as u64)
}

/// The value for the compare register so that the clock interrupts at
/// `instant`, when it is `now`: the low 24 bits of `instant` if it lies
/// ahead by no more than one round of the counter, else zero, which is
/// where the counter is right after its next overflow.
pub open spec fn compare_for(now: u64, instant: u64) -> u32 {
    match duration_since(instant, now) {
        Some(ahead) => if ahead <= RTC_MAX {
            (instant % 0x100_0000) as u32
        } else {
            0
        },
        None => 0,
    }
}

/// `fugit::Instant::checked_duration_since` for instants given by their
/// ticks: both tick counts are made instants of a timer of 32768 Hz with
/// `from_ticks`, and the duration that comes back, if any, is given by its
/// ticks. That function compares the two instants modulo the range of the
/// ticks: it returns the wrapped difference unless that is more than half
/// the range, which it takes to mean that `instant` is the earlier one.
#[verifier::external_body]
fn checked_duration_since(instant: u64, earlier: u64) -> (ticks: Option<u64>)
    ensures
        ticks == duration_since(instant, earlier),
{
    let instant = fugit::TimerInstantU64::<32_768>::from_ticks(instant);
    let earlier = fugit::TimerInstantU64::<32_768>::from_ticks(earlier);
    instant.checked_duration_since(earlier).map(|duration| duration.ticks())
}

/// A monotonic clock on top of the hardware counter. It holds the number of
/// overflows it has counted.
pub struct MonoRtc {
    overflow: u32,
}

impl View for MonoRtc {
    type V = u32;

    /// The number of overflows counted.
    closed spec fn view(&self) -> u32 {
        self.overflow
    }
}

impl MonoRtc {
    /// A clock that has counted no overflow.
    pub fn new() -> (rtc: Self)
        ensures
            rtc@ == 0,
    {
        MonoRtc { overflow: 0 }
    }

    /// Whether the overflow event register, which reads `events_ovrflw`,
    /// says that the counter has overflowed.
    pub fn is_overflow(&self, events_ovrflw: u32) -> (overflowed: bool)
        ensures
            overflowed == (events_ovrflw == 1),
    {
        events_ovrflw == 1
    }

    /// The time in ticks, given what the counter reads and whether an
    /// overflow event is pending. While the counter stays within its 24
    /// bits, that is the number of overflows times the length of a round,
    /// plus the counter.
    pub fn now(&self, counter: u32, overflowed: bool) -> (ticks: u64)
        ensures
            ticks == ticks_at(self@, counter, overflowed),
            counter <= RTC_MAX ==> ticks == overflows(self@, overflowed) * 0x100_0000 + counter,
    {
        let ovf: u64 = if overflowed {
            self.overflow.wrapping_add(1)
        } else {
            self.overflow
        } as u64;
        let cnt: u64 = counter as u64;
        assert(ovf <= 0xffff_ffff && cnt <= 0x00ff_ffff ==> (ovf << 24) | cnt == ovf * 0x100_0000
            + cnt) by (bit_vector);
        (ovf << 24) | cnt
    }

    /// The value to write to the compare register so that the clock
    /// interrupts at `instant`, when the time is `now`.
    pub fn set_compare(&self, now: u64, instant: u64) -> (val: u32)
        ensures
            val == compare_for(now, instant),
    {
        match checked_duration_since(instant, now) {
            Some(ahead) => {
                if ahead <= RTC_MAX as u64 {
                    assert((instant as u32) & 0x00ff_ffff == (instant % 0x100_0000) as u32)
                        by (bit_vector);
                    (instant as u32) & RTC_MAX
                } else {
                    0
                }
            },
            None => 0,
        }
    }

    /// The clock's part of its interrupt. If the counter has overflowed,
    /// counts the overflow and returns `true`: the caller clears the event.
    pub fn on_interrupt(&mut self, overflowed: bool) -> (counted: bool)
        ensures
            counted == overflowed,
            final(self)@ == overflows(old(self)@, overflowed),
    {
        if overflowed {
            self.overflow = self.overflow.wrapping_add(1);
        }
        overflowed
    }
}

/// Counting an overflow does not move the clock: the time read while the
/// overflow event is pending is the time read at the same counter value
/// once the interrupt has counted the overflow and the event is cleared.
pub proof fn lemma_counting_keeps_time(overflow: u32, counter: u32)
    ensures
        ticks_at(overflow, counter, true) == ticks_at(overflows(overflow, true), counter, false),
{
}

} // verus!
