//! Frame parsing, pacing, the status overlay, and whole-step scenarios
//! with a simulated clock.

use ttyreplay::frames::{read_payload, read_timecode, PayloadResult, TimecodeResult};
use ttyreplay::input::Input;
use ttyreplay::player::{step, Session, StepResult};
use ttyreplay::schedule::{decide, Disposition};
use ttyreplay::status::render_status;

fn input_of(bytes: &[u8]) -> Input {
    Input::reader(bytes.to_vec(), "test").unwrap()
}

fn expected_status(frame_count: u64, size: u64, timecode: u64, dropped: u64) -> Vec<u8> {
    let t_hh: u64 = timecode / (3600 * 1000);
    let t_mm: u64 = (timecode / (60 * 1000)) % 60;
    let t_ss: u64 = (timecode / 1000) % 60;
    let t_ms: u64 = timecode % 1000;
    let mut s: String = format!(
        "  [{:6}][{:6}b][{:02}:{:02}:{:02}.{:03}]",
        frame_count, size, t_hh, t_mm, t_ss, t_ms,
    );
    if dropped > 0 {
        s.push_str(&format!(" Dropped frames: {}", dropped));
    }
    s.push_str("\x1b[G");
    s.into_bytes()
}

#[test]
fn timecode_of_first_frame() {
    let mut inp = input_of(b"\x160tAB\x17");
    let res = read_timecode(&mut inp).unwrap();
    assert!(matches!(res, TimecodeResult::Timecode(0)));
}

#[test]
fn timecode_skips_leading_junk() {
    let mut inp = input_of(b"noise before the marker\x16123tAB\x17");
    let res = read_timecode(&mut inp).unwrap();
    assert!(matches!(res, TimecodeResult::Timecode(123)));
}

#[test]
fn timecode_end_when_no_marker_remains() {
    let mut inp = input_of(b"leftover bytes without any marker");
    let res = read_timecode(&mut inp).unwrap();
    assert!(matches!(res, TimecodeResult::End));
}

#[test]
fn timecode_end_on_empty_stream() {
    let mut inp = input_of(b"");
    let res = read_timecode(&mut inp).unwrap();
    assert!(matches!(res, TimecodeResult::End));
}

#[test]
fn timecode_with_nondigit_field_fails() {
    let mut inp = input_of(b"\x16xytAB\x17");
    assert!(read_timecode(&mut inp).is_err());
}

#[test]
fn timecode_with_empty_field_fails() {
    let mut inp = input_of(b"\x16tAB\x17");
    assert!(read_timecode(&mut inp).is_err());
}

#[test]
fn timecode_too_large_fails() {
    let mut inp = input_of(b"\x1699999999999999999999tAB\x17");
    assert!(read_timecode(&mut inp).is_err());
}

#[test]
fn timecode_at_limit_parses() {
    let mut inp = input_of(b"\x1618446744073709551615tAB\x17");
    let res = read_timecode(&mut inp).unwrap();
    assert!(matches!(res, TimecodeResult::Timecode(u64::MAX)));
}

#[test]
fn payload_up_to_end_marker() {
    let mut inp = input_of(b"\x160tAB\x17rest");
    read_timecode(&mut inp).unwrap();
    let res = read_payload(&mut inp);
    match res {
        PayloadResult::Data(p) => assert_eq!(p, b"AB".to_vec()),
        PayloadResult::End => panic!("expected a payload"),
    }
}

#[test]
fn payload_without_end_marker_loses_final_byte() {
    let mut inp = input_of(b"\x160tABC");
    read_timecode(&mut inp).unwrap();
    let res = read_payload(&mut inp);
    match res {
        PayloadResult::Data(p) => assert_eq!(p, b"AB".to_vec()),
        PayloadResult::End => panic!("expected a payload"),
    }
}

#[test]
fn payload_end_at_stream_end() {
    let mut inp = input_of(b"\x160t");
    read_timecode(&mut inp).unwrap();
    assert!(matches!(read_payload(&mut inp), PayloadResult::End));
}

#[test]
fn decide_zero_timecode_plays_immediately() {
    assert_eq!(decide(0, 0), Disposition::Play { wait_ms: 0 });
    assert_eq!(decide(0, 99999), Disposition::Play { wait_ms: 0 });
}

#[test]
fn decide_future_frame_waits() {
    assert_eq!(decide(10000, 4000), Disposition::Play { wait_ms: 6000 });
}

#[test]
fn decide_small_lag_plays() {
    assert_eq!(decide(1000, 1100), Disposition::Play { wait_ms: 0 });
}

#[test]
fn decide_moderate_lag_drops() {
    assert_eq!(decide(1000, 1101), Disposition::Drop);
    assert_eq!(decide(1000, 11000), Disposition::Drop);
}

#[test]
fn decide_extreme_lag_aborts() {
    assert_eq!(decide(1000, 11001), Disposition::Abort);
}

#[test]
fn status_line_exact_rendering() {
    let line = render_status(7, 42, 3723456, 0);
    assert_eq!(line, expected_status(7, 42, 3723456, 0));
    assert_eq!(
        String::from_utf8(line).unwrap(),
        "  [     7][    42b][01:02:03.456]\u{1b}[G".to_string(),
    );
}

#[test]
fn status_line_with_drop_counter() {
    let line = render_status(12, 0, 61005, 3);
    assert_eq!(line, expected_status(12, 0, 61005, 3));
    assert_eq!(
        String::from_utf8(line).unwrap(),
        "  [    12][     0b][00:01:01.005] Dropped frames: 3\u{1b}[G".to_string(),
    );
}

#[test]
fn status_line_wide_fields_are_not_truncated() {
    let line = render_status(1234567, 7654321, 0, 0);
    assert_eq!(line, expected_status(1234567, 7654321, 0, 0));
}

#[test]
fn status_rendering_is_idempotent() {
    let a = render_status(3, 17, 4999, 2);
    let b = render_status(3, 17, 4999, 2);
    assert_eq!(a, b);
}

#[test]
fn two_frames_on_time_both_play() {
    let mut inp = input_of(b"\x160tAB\x17\x16100tCD\x17");
    let mut sess = Session::new();
    match step(&mut inp, &mut sess, 0) {
        StepResult::Emit { wait_ms, out } => {
            assert_eq!(wait_ms, 0);
            let mut want: Vec<u8> = b"AB".to_vec();
            want.extend_from_slice(&expected_status(0, 2, 0, 0));
            assert_eq!(out, want);
        },
        _ => panic!("expected the first frame to play"),
    }
    match step(&mut inp, &mut sess, 100) {
        StepResult::Emit { wait_ms, out } => {
            assert_eq!(wait_ms, 0);
            let mut want: Vec<u8> = b"CD".to_vec();
            want.extend_from_slice(&expected_status(1, 2, 100, 0));
            assert_eq!(out, want);
        },
        _ => panic!("expected the second frame to play"),
    }
    assert!(matches!(step(&mut inp, &mut sess, 200), StepResult::End { wait_ms: 0 }));
    assert_eq!(sess.frame_count, 2);
    assert_eq!(sess.dropped_count, 0);
}

#[test]
fn not_yet_due_frame_is_waited_for() {
    let mut inp = input_of(b"\x160tAB\x17\x165000tCD\x17");
    let mut sess = Session::new();
    match step(&mut inp, &mut sess, 0) {
        StepResult::Emit { wait_ms, .. } => assert_eq!(wait_ms, 0),
        _ => panic!("expected the first frame to play"),
    }
    match step(&mut inp, &mut sess, 1500) {
        StepResult::Emit { wait_ms, out } => {
            assert_eq!(wait_ms, 3500);
            let mut want: Vec<u8> = b"CD".to_vec();
            want.extend_from_slice(&expected_status(1, 2, 5000, 0));
            assert_eq!(out, want);
        },
        _ => panic!("expected the second frame to wait, then play"),
    }
}

#[test]
fn five_seconds_late_frame_is_dropped() {
    let mut inp = input_of(b"\x160tAB\x17\x161000tCD\x17");
    let mut sess = Session::new();
    match step(&mut inp, &mut sess, 0) {
        StepResult::Emit { .. } => {},
        _ => panic!("expected the first frame to play"),
    }
    // the second frame is due at 1000 ms but the clock reads 6000 ms
    match step(&mut inp, &mut sess, 6000) {
        StepResult::Emit { wait_ms, out } => {
            assert_eq!(wait_ms, 0);
            // the payload is absent; the status line alone is emitted
            assert_eq!(out, expected_status(1, 2, 1000, 1));
        },
        _ => panic!("expected the second frame to be dropped"),
    }
    assert_eq!(sess.dropped_count, 1);
    assert_eq!(sess.frame_count, 2);
}

#[test]
fn fifteen_seconds_late_frame_aborts() {
    let mut inp = input_of(b"\x160tAB\x17\x161000tCD\x17\x162000tEF\x17");
    let mut sess = Session::new();
    match step(&mut inp, &mut sess, 0) {
        StepResult::Emit { .. } => {},
        _ => panic!("expected the first frame to play"),
    }
    // the second frame is due at 1000 ms but the clock reads 16000 ms
    match step(&mut inp, &mut sess, 16000) {
        StepResult::Abort { out } => {
            assert_eq!(
                out,
                b"\x1b[KYour connection is too slow to play this, sorry.\n".to_vec(),
            );
        },
        _ => panic!("expected playback to abort"),
    }
    assert_eq!(sess.frame_count, 1);
    assert_eq!(sess.dropped_count, 0);
}

#[test]
fn first_frame_with_nonzero_timecode_is_rejected() {
    let mut inp = input_of(b"\x165tAB\x17");
    let mut sess = Session::new();
    assert!(matches!(step(&mut inp, &mut sess, 0), StepResult::NotARecording));
    assert_eq!(sess.frame_count, 0);
    assert_eq!(sess.dropped_count, 0);
}

#[test]
fn bad_timecode_field_is_fatal() {
    let mut inp = input_of(b"\x16oopsAB\x17");
    let mut sess = Session::new();
    assert!(matches!(step(&mut inp, &mut sess, 0), StepResult::BadTimecode));
}

#[test]
fn stream_without_trailing_marker_terminates_cleanly() {
    let mut inp = input_of(b"\x160tAB\x17trailing bytes with no marker");
    let mut sess = Session::new();
    match step(&mut inp, &mut sess, 0) {
        StepResult::Emit { .. } => {},
        _ => panic!("expected the first frame to play"),
    }
    assert!(matches!(step(&mut inp, &mut sess, 50), StepResult::End { wait_ms: 0 }));
    assert_eq!(sess.frame_count, 1);
}

#[test]
fn stream_ending_inside_a_frame_terminates() {
    let mut inp = input_of(b"\x160tAB\x17\x16200t");
    let mut sess = Session::new();
    match step(&mut inp, &mut sess, 0) {
        StepResult::Emit { .. } => {},
        _ => panic!("expected the first frame to play"),
    }
    // the second frame has a timecode but no payload byte at all
    assert!(matches!(step(&mut inp, &mut sess, 200), StepResult::End { .. }));
    assert_eq!(sess.frame_count, 1);
}
