//! The frame protocol: each frame of the recording is the start-of-frame
//! marker 0x16, the timecode field (ASCII decimal digits closed by `t`),
//! the payload bytes, and the end-of-frame marker 0x17.

use vstd::prelude::*;
use crate::input::Input;

verus! {

/// Start-of-frame marker.
pub const FRAME_START: u8 = 0x16;

/// End-of-frame marker.
pub const FRAME_END: u8 = 0x17;

/// The byte that closes the timecode field: ASCII `t`.
pub const TIMECODE_END: u8 = 0x74;

/// The least index `i >= from` with `s[i] == b`, if any.
pub open spec fn find_byte(s: Seq<u8>, from: int, b: u8) -> Option<int>
    decreases s.len() - from,
{
    if from < 0 || from >= s.len() {
        Option::None
    } else if s[from] == b {
        Option::Some(from)
    } else {
        find_byte(s, from + 1, b)
    }
}

/// What `find_byte` returns is the first occurrence of `b` at or after
/// `from`.
pub proof fn lemma_find_byte(s: Seq<u8>, from: int, b: u8)
    requires
        0 <= from <= s.len(),
    ensures
        match find_byte(s, from, b) {
            Option::Some(i) => from <= i < s.len() && s[i] == b
                && (forall|j: int| from <= j < i ==> s[j] != b),
            Option::None => forall|j: int| from <= j < s.len() ==> s[j] != b,
        },
    decreases s.len() - from,
{
    if from < s.len() && s[from] != b {
        lemma_find_byte(s, from + 1, b);
    }
}

/// Scan forward from `from` for the first occurrence of `b`.
pub fn scan_to(bytes: &Vec<u8>, from: usize, b: u8) -> (r: Option<usize>)
    requires
        from <= bytes@.len(),
    ensures
        match r {
            Option::Some(i) => from <= i < bytes@.len() && find_byte(bytes@, from as int, b)
                == Option::Some(i as int),
            Option::None => find_byte(bytes@, from as int, b) is None,
        },
{
    let mut i: usize = from;
    while i < bytes.len()
        invariant
            from <= i <= bytes@.len(),
            find_byte(bytes@, from as int, b) == find_byte(bytes@, i as int, b),
        decreases bytes@.len() - i,
    {
        if bytes[i] == b {
            return Some(i);
        }
        i = i + 1;
    }
    None
}

/// Is `b` an ASCII decimal digit?
pub open spec fn is_digit(b: u8) -> bool {
    0x30 <= b <= 0x39
}

pub open spec fn all_digits(s: Seq<u8>) -> bool {
    forall|i: int| 0 <= i < s.len() ==> is_digit(s[i])
}

/// The value of a string of ASCII decimal digits, most significant first.
pub open spec fn digits_val(s: Seq<u8>) -> nat
    decreases s.len(),
{
    if s.len() == 0 {
        0
    } else {
        digits_val(s.drop_last()) * 10 + (s.last() - 0x30) as nat
    }
}

/// `s` with every trailing `t` byte removed.
pub open spec fn strip_trailing_t(s: Seq<u8>) -> Seq<u8>
    decreases s.len(),
{
    if s.len() > 0 && s.last() == TIMECODE_END {
        strip_trailing_t(s.drop_last())
    } else {
        s
    }
}

/// A timecode field is valid when, after the trailing `t` bytes are
/// stripped, it is a nonempty string of decimal digits whose value fits in
/// an unsigned 64-bit integer.
pub open spec fn valid_timecode_field(s: Seq<u8>) -> bool {
    let d = strip_trailing_t(s);
    d.len() > 0 && all_digits(d) && digits_val(d) <= u64::MAX
}

/// Where the timecode field of the frame whose start marker sits at `i`
/// ends: one past the closing `t`, or the end of the stream if no `t`
/// follows.
pub open spec fn timecode_field_end(s: Seq<u8>, i: int) -> int {
    match find_byte(s, i + 1, TIMECODE_END) {
        Option::Some(j) => j + 1,
        Option::None => s.len() as int,
    }
}

/// The outcome of one timecode read.
pub enum TimecodeOutcome {
    /// No start-of-frame marker before the end of the stream: the normal
    /// end-of-recording signal.
    End,
    /// The timecode field is not a valid unsigned decimal integer.
    Bad { next: int },
    /// A decoded timecode, and the cursor position following its field.
    Value { timecode: u64, next: int },
}

/// What reading the next timecode from position `pos` of stream `s`
/// yields: everything up to and including the next start-of-frame marker
/// is discarded, and the bytes from there to the closing `t` (or to the
/// end of the stream) form the timecode field.
pub open spec fn timecode_read(s: Seq<u8>, pos: int) -> TimecodeOutcome {
    match find_byte(s, pos, FRAME_START) {
        Option::None => TimecodeOutcome::End,
        Option::Some(i) => {
            let fend = timecode_field_end(s, i);
            let field = s.subrange(i + 1, fend);
            if valid_timecode_field(field) {
                TimecodeOutcome::Value {
                    timecode: digits_val(strip_trailing_t(field)) as u64,
                    next: fend,
                }
            } else {
                TimecodeOutcome::Bad { next: fend }
            }
        },
    }
}

/// A timecode read always moves the cursor strictly forward, and never
/// past the end of the stream.
pub proof fn lemma_timecode_read_advances(s: Seq<u8>, pos: int)
    requires
        0 <= pos <= s.len(),
    ensures
        timecode_read(s, pos) matches TimecodeOutcome::Value { next, .. } ==> pos < next
            <= s.len(),
        timecode_read(s, pos) matches TimecodeOutcome::Bad { next } ==> pos < next <= s.len(),
{
    lemma_find_byte(s, pos, FRAME_START);
    match find_byte(s, pos, FRAME_START) {
        Option::Some(i) => {
            lemma_find_byte(s, i + 1, TIMECODE_END);
        },
        Option::None => {
        },
    }
}

/// A payload read always moves the cursor strictly forward, and never
/// past the end of the stream.
pub proof fn lemma_payload_read_advances(s: Seq<u8>, pos: int)
    requires
        0 <= pos <= s.len(),
    ensures
        payload_read(s, pos) matches PayloadOutcome::Data { next, .. } ==> pos < next <= s.len(),
{
    if pos < s.len() {
        lemma_find_byte(s, pos, FRAME_END);
    }
}

/// The result of one timecode read, as handed to callers.
pub enum TimecodeResult {
    /// End of the recording.
    End,
    /// The decoded timecode of the next frame.
    Timecode(u64),
}

/// The timecode field is not a valid unsigned decimal integer: a fatal
/// format-integrity failure.
#[derive(Clone, Copy, Debug, PartialEq, Eq, Structural)]
pub struct ParseError {
}

/// Parse `bytes[start..end]` as a timecode field: strip trailing `t`
/// bytes, then require a nonempty string of decimal digits whose value
/// fits in 64 bits.
fn parse_timecode_field(bytes: &Vec<u8>, start: usize, end: usize) -> (r: Option<u64>)
    requires
        start <= end <= bytes@.len(),
    ensures
        ({
            let field = bytes@.subrange(start as int, end as int);
            match r {
                Option::Some(tc) => valid_timecode_field(field)
                    && tc == digits_val(strip_trailing_t(field)),
                Option::None => !valid_timecode_field(field),
            }
        }),
{
    let ghost field = bytes@.subrange(start as int, end as int);
    let mut dend: usize = end;
    while dend > start && bytes[dend - 1] == TIMECODE_END
        invariant
            start <= dend <= end <= bytes@.len(),
            strip_trailing_t(field) == strip_trailing_t(
                bytes@.subrange(start as int, dend as int),
            ),
        decreases dend,
    {
        proof {
            let cur = bytes@.subrange(start as int, dend as int);
            assert(cur.last() == bytes@[dend - 1]);
            assert(cur.drop_last() =~= bytes@.subrange(start as int, dend - 1));
        }
        dend = dend - 1;
    }
    proof {
        let cur = bytes@.subrange(start as int, dend as int);
        if dend > start {
            assert(cur.last() == bytes@[dend - 1]);
        }
        assert(strip_trailing_t(cur) == cur);
    }
    if dend == start {
        // the stripped field is empty
        proof {
            assert(bytes@.subrange(start as int, dend as int).len() == 0);
        }
        return None;
    }
    let ghost digits = bytes@.subrange(start as int, dend as int);
    let mut acc: u64 = 0;
    let mut over: bool = false;
    let mut k: usize = start;
    while k < dend
        invariant
            start <= k <= dend <= end <= bytes@.len(),
            start < dend,
            digits == bytes@.subrange(start as int, dend as int),
            field == bytes@.subrange(start as int, end as int),
            strip_trailing_t(field) == digits,
            all_digits(bytes@.subrange(start as int, k as int)),
            !over ==> acc == digits_val(bytes@.subrange(start as int, k as int)),
            over ==> digits_val(bytes@.subrange(start as int, k as int)) > u64::MAX,
        decreases dend - k,
    {
        let b = bytes[k];
        if b < 0x30 || b > 0x39 {
            proof {
                assert(digits[k - start] == bytes@[k as int]);
                assert(!is_digit(digits[k - start]));
            }
            return None;
        }
        let d = b - 0x30;
        proof {
            let pre = bytes@.subrange(start as int, k as int);
            let ext = bytes@.subrange(start as int, k + 1);
            assert(ext.drop_last() =~= pre);
            assert(ext.last() == bytes@[k as int]);
            assert(forall|j: int| 0 <= j < ext.len() ==> ext[j] == bytes@[start + j]);
            assert(digits_val(ext) == digits_val(pre) * 10 + d);
        }
        if over || acc > u64::MAX / 10 || (acc == u64::MAX / 10 && d as u64 > u64::MAX % 10) {
            proof {
                let pre = bytes@.subrange(start as int, k as int);
                let ext = bytes@.subrange(start as int, k + 1);
                if !over {
                    assert(acc * 10 + d > u64::MAX);
                } else {
                    assert(digits_val(pre) * 10 >= digits_val(pre));
                }
                assert(digits_val(ext) > u64::MAX);
            }
            over = true;
        } else {
            proof {
                assert(acc * 10 + d <= u64::MAX);
            }
            acc = acc * 10 + d as u64;
        }
        k = k + 1;
    }
    if over {
        return None;
    }
    proof {
        assert(bytes@.subrange(start as int, dend as int) =~= digits);
    }
    Some(acc)
}

/// Find the next start-of-frame marker and parse the timecode field that
/// follows it. Reports `End` when no marker remains before the end of the
/// stream, and fails when the field is not a valid unsigned decimal
/// integer.
pub fn read_timecode(r: &mut Input) -> (res: Result<TimecodeResult, ParseError>)
    requires
        old(r).wf(),
    ensures
        final(r).wf(),
        final(r).label == old(r).label,
        final(r).bytes == old(r).bytes,
        match timecode_read(old(r).bytes@, old(r).pos as int) {
            TimecodeOutcome::End => res matches Ok(t) && t == TimecodeResult::End
                && final(r).pos == old(r).bytes@.len(),
            TimecodeOutcome::Bad { next } => res is Err && final(r).pos == next,
            TimecodeOutcome::Value { timecode, next } => res matches Ok(t)
                && t == TimecodeResult::Timecode(timecode) && final(r).pos == next,
        },
{
    proof {
        lemma_find_byte(r.bytes@, r.pos as int, FRAME_START);
    }
    match scan_to(&r.bytes, r.pos, FRAME_START) {
        Option::None => {
            r.pos = r.bytes.len();
            Ok(TimecodeResult::End)
        },
        Option::Some(i) => {
            let n = r.bytes.len();
            proof {
                lemma_find_byte(r.bytes@, i + 1, TIMECODE_END);
            }
            let fend = match scan_to(&r.bytes, i + 1, TIMECODE_END) {
                Option::Some(j) => j + 1,
                Option::None => n,
            };
            let parsed = parse_timecode_field(&r.bytes, i + 1, fend);
            r.pos = fend;
            match parsed {
                Option::Some(tc) => Ok(TimecodeResult::Timecode(tc)),
                Option::None => Err(ParseError {  }),
            }
        },
    }
}

/// The outcome of one payload read.
pub enum PayloadOutcome {
    /// The stream ended exactly at the cursor: the end-of-recording signal.
    End,
    /// The payload bytes, and the cursor position following the frame.
    Data { payload: Seq<u8>, next: int },
}

/// What reading a payload from position `pos` of stream `s` yields: the
/// bytes up to but excluding the next end-of-frame marker. When the stream
/// ends before a marker, the final byte read is discarded in its place;
/// when no byte remains at all, the recording is over.
pub open spec fn payload_read(s: Seq<u8>, pos: int) -> PayloadOutcome {
    if pos >= s.len() {
        PayloadOutcome::End
    } else {
        match find_byte(s, pos, FRAME_END) {
            Option::Some(j) => PayloadOutcome::Data { payload: s.subrange(pos, j), next: j + 1 },
            Option::None => PayloadOutcome::Data {
                payload: s.subrange(pos, s.len() - 1),
                next: s.len() as int,
            },
        }
    }
}

/// The result of one payload read, as handed to callers.
pub enum PayloadResult {
    /// End of the recording.
    End,
    /// The payload of the frame, with its end-of-frame marker discarded.
    Data(Vec<u8>),
}

/// Copy `bytes[start..end]` into a fresh vector.
fn copy_range(bytes: &Vec<u8>, start: usize, end: usize) -> (r: Vec<u8>)
    requires
        start <= end <= bytes@.len(),
    ensures
        r@ == bytes@.subrange(start as int, end as int),
{
    let mut out: Vec<u8> = Vec::new();
    let mut k: usize = start;
    while k < end
        invariant
            start <= k <= end <= bytes@.len(),
            out@ == bytes@.subrange(start as int, k as int),
        decreases end - k,
    {
        let b = bytes[k];
        out.push(b);
        proof {
            assert(out@ =~= bytes@.subrange(start as int, k + 1));
        }
        k = k + 1;
    }
    out
}

/// Read the payload of the current frame: everything up to but excluding
/// the next end-of-frame marker. Reports `End` when the stream ended
/// exactly at the cursor.
pub fn read_payload(r: &mut Input) -> (res: PayloadResult)
    requires
        old(r).wf(),
    ensures
        final(r).wf(),
        final(r).label == old(r).label,
        final(r).bytes == old(r).bytes,
        match payload_read(old(r).bytes@, old(r).pos as int) {
            PayloadOutcome::End => res is End && final(r).pos == old(r).pos,
            PayloadOutcome::Data { payload, next } => res matches PayloadResult::Data(v)
                && v@ == payload && final(r).pos == next,
        },
{
    if r.pos >= r.bytes.len() {
        return PayloadResult::End;
    }
    proof {
        lemma_find_byte(r.bytes@, r.pos as int, FRAME_END);
    }
    match scan_to(&r.bytes, r.pos, FRAME_END) {
        Option::Some(j) => {
            let payload = copy_range(&r.bytes, r.pos, j);
            r.pos = j + 1;
            PayloadResult::Data(payload)
        },
        Option::None => {
            let payload = copy_range(&r.bytes, r.pos, r.bytes.len() - 1);
            r.pos = r.bytes.len();
            PayloadResult::Data(payload)
        },
    }
}

} // verus!
