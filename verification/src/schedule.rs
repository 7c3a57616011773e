//! Pacing decisions: for each frame, compare its timecode against the time
//! elapsed since playback started and decide whether to wait, play, drop,
//! or abort.

use vstd::prelude::*;

verus! {

/// Maximum acceptable playback lag, in milliseconds, before frames are
/// silently skipped.
pub const DROP_THRESHOLD_MS: u64 = 100;

/// Lag, in milliseconds, beyond which playback is abandoned as
/// unrecoverable.
pub const FAIL_THRESHOLD_MS: u64 = 10000;

/// What is to be done with one frame.
#[derive(Clone, Copy, Debug, PartialEq, Eq, Structural)]
pub enum Disposition {
    /// Sleep for `wait_ms` milliseconds (possibly zero), then play the frame.
    Play { wait_ms: u64 },
    /// Skip the frame's payload; only the status line is shown.
    Drop,
    /// The player has fallen too far behind: emit a notice and stop.
    Abort,
}

/// The disposition of a frame whose timecode is `timecode` when `elapsed`
/// milliseconds have passed since playback started.
pub open spec fn disposition_of(timecode: u64, elapsed: u64) -> Disposition {
    if timecode == 0 {
        Disposition::Play { wait_ms: 0 }
    } else if timecode > elapsed {
        Disposition::Play { wait_ms: (timecode - elapsed) as u64 }
    } else if elapsed - timecode > FAIL_THRESHOLD_MS {
        Disposition::Abort
    } else if elapsed - timecode > DROP_THRESHOLD_MS {
        Disposition::Drop
    } else {
        Disposition::Play { wait_ms: 0 }
    }
}

/// Decide the disposition of a frame. A frame recorded at time zero always
/// plays at once; a frame not yet due is waited for; a frame later than the
/// drop threshold but within the fail threshold is dropped; a frame later
/// than the fail threshold aborts playback.
pub fn decide(timecode: u64, elapsed: u64) -> (d: Disposition)
    ensures
        d == disposition_of(timecode, elapsed),
{
    if timecode == 0 {
        Disposition::Play { wait_ms: 0 }
    } else if timecode > elapsed {
        Disposition::Play { wait_ms: timecode - elapsed }
    } else if elapsed - timecode > FAIL_THRESHOLD_MS {
        Disposition::Abort
    } else if elapsed - timecode > DROP_THRESHOLD_MS {
        Disposition::Drop
    } else {
        Disposition::Play { wait_ms: 0 }
    }
}

} // verus!
