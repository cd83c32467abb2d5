use vstd::prelude::*;

verus! {

/// How many times the tray icon is set again after the theme changed.
pub const RETRY_COUNT: u8 = 3;
/// Pause before each attempt, in milliseconds.
pub const DELAY_MILLI_SECONDS: u64 = 100;

} // verus!
