//! Time keeping for a networked device: a wall clock kept as an offset from
//! the local monotonic counter, a minimal NTP exchange that corrects it, the
//! network bring-up sequence that must finish before either starts, and the
//! periodic indicator that reads the clock.
pub mod indicator;
pub mod join;
pub mod ntp;
pub mod sync;
pub mod wallclock;

pub use indicator::is_prime;
pub use wallclock::WallClock;
