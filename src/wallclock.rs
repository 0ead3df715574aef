//! The shared wall clock: Unix time as the local monotonic seconds plus an
//! offset that only a time server corrects.
use vstd::prelude::*;

verus! {

/// Unix time assumed at boot until a time server has answered
/// (2023-11-07T01:44:55Z).
pub const PLACEHOLDER_BOOT_TIME: u64 = 1699321495;

/// The largest whole-second reading of the local counter: the `u64` tick
/// count divided by the tick rate of 1 MHz.
pub const MAX_LOCAL_SECONDS: u64 = 18446744073709;

/// `x` reduced modulo 2^64 into the range of `u64`.
pub open spec fn wrap_u64(x: int) -> u64 {
    (x % 0x1_0000_0000_0000_0000) as u64
}

/// Relies on `embassy_time::Instant::now` and `Instant::as_secs`: the whole
/// seconds elapsed on the monotonic tick counter since boot. `as_secs`
/// divides the `u64` tick count by `TICK_HZ`, which this crate's
/// `embassy-time` features fix at 1_000_000, so the reading never exceeds
/// `MAX_LOCAL_SECONDS`. Which value comes back depends on the timer.
#[verifier::external_body]
fn local_seconds() -> (r: u64)
    ensures
        r <= MAX_LOCAL_SECONDS,
{
    embassy_time::Instant::now().as_secs()
}

/// The device's estimate of Unix time.
///
/// It stores the Unix time at which the local counter read zero. Reading
/// adds the counter, correcting subtracts it; both wrap modulo 2^64, so an
/// offset that would be negative is still held exactly and a reading taken
/// right after a correction returns the corrected time.
///
/// Exclusive access comes from `&mut self`: a caller that shares the clock
/// between tasks puts it behind a lock, which serialises readers and the one
/// writer.
pub struct WallClock {
    boot_time_unix_seconds: u64,
    corrected_at: Ghost<u64>,
}

impl WallClock {
    /// Unix time at which the local counter read zero, modulo 2^64.
    pub closed spec fn offset(&self) -> u64 {
        self.boot_time_unix_seconds
    }

    /// The local time of the last correction (0 before any).
    pub closed spec fn corrected_at(&self) -> u64 {
        self.corrected_at@
    }

    /// The wall time this clock reports when the local counter reads `now`.
    pub open spec fn time_at(&self, now: u64) -> u64 {
        wrap_u64(self.offset() + now)
    }

    /// The offset that makes the clock read `unix` at local time `now`.
    pub open spec fn offset_for(unix: u64, now: u64) -> u64 {
        wrap_u64(unix - now)
    }

    /// A clock whose offset is the fixed placeholder.
    pub fn new() -> (r: WallClock)
        ensures
            r.offset() == PLACEHOLDER_BOOT_TIME,
            r.corrected_at() == 0,
    {
        WallClock { boot_time_unix_seconds: PLACEHOLDER_BOOT_TIME, corrected_at: Ghost(0) }
    }

    /// The wall time when the local counter reads `now`.
    pub fn get_time_at(&self, now: u64) -> (r: u64)
        ensures
            r == self.time_at(now),
    {
        self.boot_time_unix_seconds.wrapping_add(now)
    }

    /// Corrects the clock so that it reads `new_time` when the local counter
    /// reads `now`.
    pub fn set_time_from_unix_at(&mut self, new_time: u64, now: u64)
        ensures
            final(self).offset() == Self::offset_for(new_time, now),
            final(self).corrected_at() == now,
    {
        self.boot_time_unix_seconds = new_time.wrapping_sub(now);
        self.corrected_at = Ghost(now);
    }

    /// The wall time now: the stored offset plus the local counter as it
    /// reads at this call.
    pub fn get_time(&self) -> (r: u64)
        ensures
            exists|now: u64| now <= MAX_LOCAL_SECONDS && r == self.time_at(now),
    {
        let now = local_seconds();
        self.get_time_at(now)
    }

    /// Corrects the clock so that it reads `new_time` at this moment of the
    /// local counter.
    /// The local time of the correction is recorded in `corrected_at`.
    pub fn set_time_from_unix(&mut self, new_time: u64)
        ensures
            final(self).corrected_at() <= MAX_LOCAL_SECONDS,
            final(self).offset() == Self::offset_for(new_time, final(self).corrected_at()),
    {
        let now = local_seconds();
        self.set_time_from_unix_at(new_time, now);
    }
}

/// With no correction in between, readings never go backwards and advance
/// exactly as the local counter does, as long as the wall time fits in a
/// `u64`.
pub proof fn lemma_readings_track_local_time(c: WallClock, now1: u64, now2: u64)
    requires
        now1 <= now2,
        c.offset() + now2 <= u64::MAX,
    ensures
        c.time_at(now1) <= c.time_at(now2),
        c.time_at(now2) - c.time_at(now1) == now2 - now1,
{
}

/// A reading taken at the local time of a correction returns the corrected
/// time exactly.
pub proof fn lemma_read_after_set(c: WallClock, new_time: u64, now: u64)
    requires
        c.offset() == WallClock::offset_for(new_time, now),
    ensures
        c.time_at(now) == new_time,
{
}

/// A reading taken later than a correction returns the corrected time plus
/// the local seconds elapsed since, as long as that fits in a `u64`.
pub proof fn lemma_read_later_after_set(c: WallClock, new_time: u64, set_at: u64, now: u64)
    requires
        c.offset() == WallClock::offset_for(new_time, set_at),
        set_at <= now,
        new_time + (now - set_at) <= u64::MAX,
    ensures
        c.time_at(now) == new_time + (now - set_at),
{
}

} // verus!
