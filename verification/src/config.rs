//! Tunable constants of the snapshot pipeline. All durations are in
//! milliseconds.

use vstd::prelude::*;

verus! {

/// Time between two samples of the background screenshot sampler.
pub const SAMPLING_PERIOD_MS: u64 = 800;

/// Number of frames the rolling screenshot cache keeps.
pub const CACHE_CAPACITY: usize = 20;

/// Time that must have passed, and more, since the last accepted save-file
/// change event before the next one is accepted.
pub const SAVE_DEBOUNCE_MS: u64 = 2000;

/// Least time between two accepted hotkey captures.
pub const HOTKEY_DEBOUNCE_MS: u64 = 2000;

/// Age from which on a cached frame is too old to be paired with a save
/// event.
pub const CORRELATION_MAX_AGE_MS: u64 = 10000;

/// Pause between detecting a changed save file and copying it.
pub const SETTLE_DELAY_MS: u64 = 200;

} // verus!
