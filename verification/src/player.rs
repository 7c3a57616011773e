//! The playback engine: one step reads the next frame, decides its
//! disposition against the clock, updates the session counters, and
//! produces the bytes (if any) that the caller is to write, together with
//! how long to sleep first. The caller runs the loop, performs the sleep
//! and the write, and samples the clock.

use vstd::prelude::*;
use crate::frames::{
    payload_read, read_payload, read_timecode, timecode_read, PayloadOutcome, PayloadResult,
    TimecodeOutcome, TimecodeResult,
};
use crate::input::Input;
use crate::schedule::{decide, disposition_of, Disposition};
use crate::status::{compose_frame_output, status_line};

verus! {

/// The session counters: frames delivered to the output and frames
/// intentionally skipped. Both only ever grow.
#[derive(Clone, Copy, Debug, PartialEq, Eq, Structural)]
pub struct Session {
    pub frame_count: u64,
    pub dropped_count: u64,
}

impl Session {
    /// A fresh session: nothing delivered, nothing dropped.
    pub fn new() -> (s: Session)
        ensures
            s.frame_count == 0 && s.dropped_count == 0,
    {
        Session { frame_count: 0, dropped_count: 0 }
    }
}

/// What one step of the playback loop decides, in the model.
pub enum StepSpec {
    /// The recording is over; sleep `wait_ms`, then stop cleanly.
    End { wait_ms: u64 },
    /// Sleep `wait_ms`, write `out`, flush, and continue.
    Emit { wait_ms: u64, out: Seq<u8> },
    /// The player fell behind the fail threshold: write `out` and stop.
    Abort { out: Seq<u8> },
    /// The timecode field was not a valid unsigned integer: fatal.
    BadTimecode,
    /// The first decoded timecode was nonzero: not a valid recording.
    NotARecording,
}

/// The full outcome of one step: the decision, the cursor position after
/// it, and the new counter values.
pub struct StepModel {
    pub res: StepSpec,
    pub next: int,
    pub frame_count: int,
    pub dropped_count: int,
}

/// The model of one step of the playback loop on stream `s` at cursor
/// `pos`, with session counters `sess`, when `elapsed` milliseconds have
/// passed since playback started.
pub open spec fn step_model(s: Seq<u8>, pos: int, sess: Session, elapsed: u64) -> StepModel {
    match timecode_read(s, pos) {
        TimecodeOutcome::End => StepModel {
            res: StepSpec::End { wait_ms: 0 },
            next: s.len() as int,
            frame_count: sess.frame_count as int,
            dropped_count: sess.dropped_count as int,
        },
        TimecodeOutcome::Bad { next } => StepModel {
            res: StepSpec::BadTimecode,
            next,
            frame_count: sess.frame_count as int,
            dropped_count: sess.dropped_count as int,
        },
        TimecodeOutcome::Value { timecode, next } => {
            if sess.frame_count == 0 && timecode != 0 {
                StepModel {
                    res: StepSpec::NotARecording,
                    next,
                    frame_count: sess.frame_count as int,
                    dropped_count: sess.dropped_count as int,
                }
            } else {
                let d = disposition_of(timecode, elapsed);
                if d is Abort {
                    StepModel {
                        res: StepSpec::Abort { out: slow_notice() },
                        next,
                        frame_count: sess.frame_count as int,
                        dropped_count: sess.dropped_count as int,
                    }
                } else {
                    let wait = match d {
                        Disposition::Play { wait_ms } => wait_ms,
                        _ => 0,
                    };
                    let dropped2 = sess.dropped_count as int + if d is Drop {
                        1int
                    } else {
                        0int
                    };
                    match payload_read(s, next) {
                        PayloadOutcome::End => StepModel {
                            res: StepSpec::End { wait_ms: wait },
                            next: s.len() as int,
                            frame_count: sess.frame_count as int,
                            dropped_count: dropped2,
                        },
                        PayloadOutcome::Data { payload, next: after } => {
                            let body = if d is Drop {
                                Seq::<u8>::empty()
                            } else {
                                payload
                            };
                            StepModel {
                                res: StepSpec::Emit {
                                    wait_ms: wait,
                                    out: body + status_line(
                                        sess.frame_count,
                                        payload.len() as u64,
                                        timecode,
                                        dropped2 as u64,
                                    ),
                                },
                                next: after,
                                frame_count: sess.frame_count as int + 1,
                                dropped_count: dropped2,
                            }
                        },
                    }
                }
            }
        },
    }
}

/// `"\x1b[KYour connection is too slow to play this, sorry.\n"`
pub open spec fn slow_notice() -> Seq<u8> {
    seq![
        0x1bu8, 0x5bu8, 0x4bu8, 0x59u8, 0x6fu8, 0x75u8, 0x72u8, 0x20u8, 0x63u8, 0x6fu8, 0x6eu8,
        0x6eu8, 0x65u8, 0x63u8, 0x74u8, 0x69u8, 0x6fu8, 0x6eu8, 0x20u8, 0x69u8, 0x73u8, 0x20u8,
        0x74u8, 0x6fu8, 0x6fu8, 0x20u8, 0x73u8, 0x6cu8, 0x6fu8, 0x77u8, 0x20u8, 0x74u8, 0x6fu8,
        0x20u8, 0x70u8, 0x6cu8, 0x61u8, 0x79u8, 0x20u8, 0x74u8, 0x68u8, 0x69u8, 0x73u8, 0x2cu8,
        0x20u8, 0x73u8, 0x6fu8, 0x72u8, 0x72u8, 0x79u8, 0x2eu8, 0x0au8,
    ]
}

/// Build the "connection too slow" notice.
fn slow_notice_bytes() -> (r: Vec<u8>)
    ensures
        r@ == slow_notice(),
{
    let mut v: Vec<u8> = Vec::new();
    v.push(0x1b);
    v.push(0x5b);
    v.push(0x4b);
    v.push(0x59);
    v.push(0x6f);
    v.push(0x75);
    v.push(0x72);
    v.push(0x20);
    v.push(0x63);
    v.push(0x6f);
    v.push(0x6e);
    v.push(0x6e);
    v.push(0x65);
    v.push(0x63);
    v.push(0x74);
    v.push(0x69);
    v.push(0x6f);
    v.push(0x6e);
    v.push(0x20);
    v.push(0x69);
    v.push(0x73);
    v.push(0x20);
    v.push(0x74);
    v.push(0x6f);
    v.push(0x6f);
    v.push(0x20);
    v.push(0x73);
    v.push(0x6c);
    v.push(0x6f);
    v.push(0x77);
    v.push(0x20);
    v.push(0x74);
    v.push(0x6f);
    v.push(0x20);
    v.push(0x70);
    v.push(0x6c);
    v.push(0x61);
    v.push(0x79);
    v.push(0x20);
    v.push(0x74);
    v.push(0x68);
    v.push(0x69);
    v.push(0x73);
    v.push(0x2c);
    v.push(0x20);
    v.push(0x73);
    v.push(0x6f);
    v.push(0x72);
    v.push(0x72);
    v.push(0x79);
    v.push(0x2e);
    v.push(0x0a);
    proof {
        assert(v@ =~= slow_notice());
    }
    v
}

/// What one step of the playback loop hands the caller.
pub enum StepResult {
    /// The recording is over; sleep `wait_ms` milliseconds, then write a
    /// trailing newline and stop.
    End { wait_ms: u64 },
    /// Sleep `wait_ms` milliseconds, then write `out`, flush, and step
    /// again.
    Emit { wait_ms: u64, out: Vec<u8> },
    /// Write `out` and stop: the connection is too slow.
    Abort { out: Vec<u8> },
    /// The timecode field was not a valid unsigned integer: fatal.
    BadTimecode,
    /// The first decoded timecode was nonzero: the input is not a valid
    /// recording; nothing has been emitted.
    NotARecording,
}

/// One step of the playback loop: read the next frame's timecode, decide
/// its disposition against `elapsed`, read its payload, and compose the
/// output write. The caller performs the sleep and the write.
pub fn step(inp: &mut Input, sess: &mut Session, elapsed: u64) -> (r: StepResult)
    requires
        old(inp).wf(),
        old(sess).frame_count < u64::MAX,
        old(sess).dropped_count < u64::MAX,
    ensures
        final(inp).wf(),
        final(inp).label == old(inp).label,
        final(inp).bytes == old(inp).bytes,
        ({
            let m = step_model(old(inp).bytes@, old(inp).pos as int, *old(sess), elapsed);
            &&& final(inp).pos == m.next
            &&& final(sess).frame_count == m.frame_count
            &&& final(sess).dropped_count == m.dropped_count
            &&& match r {
                StepResult::End { wait_ms } => m.res == (StepSpec::End { wait_ms }),
                StepResult::Emit { wait_ms, out } => m.res matches StepSpec::Emit {
                    wait_ms: w,
                    out: o,
                } && w == wait_ms && o == out@,
                StepResult::Abort { out } => m.res matches StepSpec::Abort { out: o } && o
                    == out@,
                StepResult::BadTimecode => m.res is BadTimecode,
                StepResult::NotARecording => m.res is NotARecording,
            }
        }),
{
    let timecode = match read_timecode(inp) {
        Result::Ok(TimecodeResult::End) => {
            return StepResult::End { wait_ms: 0 };
        },
        Result::Ok(TimecodeResult::Timecode(tc)) => tc,
        Result::Err(_) => {
            return StepResult::BadTimecode;
        },
    };
    if sess.frame_count == 0 && timecode != 0 {
        return StepResult::NotARecording;
    }
    let d = decide(timecode, elapsed);
    let wait_ms = match d {
        Disposition::Abort => {
            return StepResult::Abort { out: slow_notice_bytes() };
        },
        Disposition::Play { wait_ms } => wait_ms,
        Disposition::Drop => 0,
    };
    if matches!(d, Disposition::Drop) {
        sess.dropped_count = sess.dropped_count + 1;
    }
    let payload = match read_payload(inp) {
        PayloadResult::End => {
            return StepResult::End { wait_ms };
        },
        PayloadResult::Data(p) => p,
    };
    let size = payload.len() as u64;
    let empty_payload: Vec<u8> = Vec::new();
    let out = if matches!(d, Disposition::Drop) {
        proof {
            assert(empty_payload@ =~= Seq::<u8>::empty());
        }
        compose_frame_output(&empty_payload, sess.frame_count, size, timecode, sess.dropped_count)
    } else {
        compose_frame_output(&payload, sess.frame_count, size, timecode, sess.dropped_count)
    };
    sess.frame_count = sess.frame_count + 1;
    StepResult::Emit { wait_ms, out }
}

/// Every frame that remains in stream `s` from position `pos` on carries
/// timecode zero. (A stream whose next timecode field is malformed stops
/// the player there, so nothing further is required of it.)
pub open spec fn all_frames_zero(s: Seq<u8>, pos: int) -> bool
    decreases s.len() - pos,
    when 0 <= pos <= s.len()
    via all_frames_zero_decreases
{
    match timecode_read(s, pos) {
        TimecodeOutcome::End => true,
        TimecodeOutcome::Bad { .. } => true,
        TimecodeOutcome::Value { timecode, next } => timecode == 0 && (match payload_read(
            s,
            next,
        ) {
            PayloadOutcome::End => true,
            PayloadOutcome::Data { next: after, .. } => all_frames_zero(s, after),
        }),
    }
}

#[via_fn]
proof fn all_frames_zero_decreases(s: Seq<u8>, pos: int) {
    crate::frames::lemma_timecode_read_advances(s, pos);
    match timecode_read(s, pos) {
        TimecodeOutcome::Value { next, .. } => {
            crate::frames::lemma_payload_read_advances(s, next);
        },
        _ => {
        },
    }
}

/// A recording in which every frame's timecode is zero never waits and
/// never drops: whatever the clock reads, a step neither increments the
/// drop counter, nor asks the caller for any sleep, nor aborts — frames
/// play back as fast as they can be parsed and written — and the rest of
/// the stream is again all zero-timecode frames.
pub proof fn lemma_zero_recording_never_waits_or_drops(
    s: Seq<u8>,
    pos: int,
    sess: Session,
    elapsed: u64,
)
    requires
        0 <= pos <= s.len(),
        all_frames_zero(s, pos),
    ensures
        ({
            let m = step_model(s, pos, sess, elapsed);
            &&& m.dropped_count == sess.dropped_count
            &&& !(m.res is Abort)
            &&& m.res matches StepSpec::Emit { wait_ms, .. } ==> wait_ms == 0
            &&& m.res matches StepSpec::End { wait_ms } ==> wait_ms == 0
            &&& m.res is Emit ==> 0 <= m.next <= s.len() && all_frames_zero(s, m.next)
        }),
{
    crate::frames::lemma_timecode_read_advances(s, pos);
    match timecode_read(s, pos) {
        TimecodeOutcome::Value { timecode, next } => {
            crate::frames::lemma_payload_read_advances(s, next);
        },
        _ => {
        },
    }
}

/// A frame whose computed wait is negative beyond the drop threshold but
/// within the fail threshold is dropped: the drop counter grows by exactly
/// one, and the frame's payload bytes never reach the output — the step
/// emits the status line alone.
pub proof fn lemma_late_frame_dropped(
    s: Seq<u8>,
    pos: int,
    sess: Session,
    elapsed: u64,
    timecode: u64,
    next: int,
)
    requires
        timecode_read(s, pos) == (TimecodeOutcome::Value { timecode, next }),
        sess.frame_count > 0,
        timecode > 0,
        elapsed > timecode,
        elapsed - timecode > crate::schedule::DROP_THRESHOLD_MS,
        elapsed - timecode <= crate::schedule::FAIL_THRESHOLD_MS,
    ensures
        ({
            let m = step_model(s, pos, sess, elapsed);
            &&& m.dropped_count == sess.dropped_count + 1
            &&& m.res matches StepSpec::Emit { out, .. } ==> (payload_read(
                s,
                next,
            ) matches PayloadOutcome::Data { payload, .. } && out == status_line(
                sess.frame_count,
                payload.len() as u64,
                timecode,
                (sess.dropped_count + 1) as u64,
            ))
        }),
{
    let m = step_model(s, pos, sess, elapsed);
    assert(disposition_of(timecode, elapsed) is Drop);
    if m.res matches StepSpec::Emit { out, .. } {
        assert(Seq::<u8>::empty() + status_line(
            sess.frame_count,
            (payload_read(s, next)->payload).len() as u64,
            timecode,
            (sess.dropped_count + 1) as u64,
        ) =~= status_line(
            sess.frame_count,
            (payload_read(s, next)->payload).len() as u64,
            timecode,
            (sess.dropped_count + 1) as u64,
        ));
    }
}

/// If the first decoded timecode is nonzero, the input is judged not to be
/// a valid recording and the step aborts before any frame is emitted: no
/// output is produced and neither counter moves.
pub proof fn lemma_first_frame_nonzero_aborts(
    s: Seq<u8>,
    pos: int,
    sess: Session,
    elapsed: u64,
    timecode: u64,
    next: int,
)
    requires
        sess.frame_count == 0,
        timecode_read(s, pos) == (TimecodeOutcome::Value { timecode, next }),
        timecode != 0,
    ensures
        ({
            let m = step_model(s, pos, sess, elapsed);
            &&& m.res is NotARecording
            &&& m.frame_count == sess.frame_count
            &&& m.dropped_count == sess.dropped_count
        }),
{
}

} // verus!
