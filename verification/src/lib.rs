//! A chat-bot library for finding a group of friends' most recent shared
//! online-game match, rendering its per-player statistics, and asking a
//! generative-language service to name the worst performer.
//!
//! The verified core is the match-selection pipeline: deduplicating candidate
//! match identifiers across tracked players, filtering by eligibility rules,
//! computing victory from team data, and picking the most recent eligible
//! match. Rendering and the handler's state machine are verified as well;
//! the HTTP transports live outside this crate.

use vstd::prelude::*;

pub mod config;
pub mod gemini;
pub mod handler;
pub mod riot;
pub mod text;

verus! {

/// The number of seconds in one day, the base of the lookback window.
pub const SECONDS_IN_DAY: u64 = 86400;

/// Start of the sliding lookback window: one day before `now_secs`, with a
/// fixed one-hour buffer, expressed as a signed epoch timestamp.
pub fn lookback_window_start(now_secs: u64) -> (r: i64)
    requires
        90000 <= now_secs,
        now_secs < 0x8000_0000_0000_0000u64,
    ensures
        r == now_secs - SECONDS_IN_DAY - 3600,
{
    (now_secs - SECONDS_IN_DAY) as i64 - 3600
}

} // verus!
