//! The status overlay: every frame that reaches the output carries a
//! progress annotation, ending in a cursor-reset control sequence so that
//! successive status lines overwrite each other in place.

use vstd::prelude::*;
use crate::fmt::{dec_of, dec_padded, dec_u64, append_bytes, append_dec_padded};

verus! {

/// `"  ["`
pub open spec fn open_lit() -> Seq<u8> {
    seq![0x20u8, 0x20u8, 0x5bu8]
}

/// `"]["`
pub open spec fn mid_lit() -> Seq<u8> {
    seq![0x5du8, 0x5bu8]
}

/// `"b]["`
pub open spec fn size_lit() -> Seq<u8> {
    seq![0x62u8, 0x5du8, 0x5bu8]
}

/// `":"`
pub open spec fn colon_lit() -> Seq<u8> {
    seq![0x3au8]
}

/// `"."`
pub open spec fn dot_lit() -> Seq<u8> {
    seq![0x2eu8]
}

/// `"]"`
pub open spec fn close_lit() -> Seq<u8> {
    seq![0x5du8]
}

/// `" Dropped frames: "`
pub open spec fn dropped_lit() -> Seq<u8> {
    seq![
        0x20u8, 0x44u8, 0x72u8, 0x6fu8, 0x70u8, 0x70u8, 0x65u8, 0x64u8, 0x20u8, 0x66u8, 0x72u8,
        0x61u8, 0x6du8, 0x65u8, 0x73u8, 0x3au8, 0x20u8,
    ]
}

/// The control sequence that returns the write position to the start of
/// the current output line.
pub open spec fn cursor_reset() -> Seq<u8> {
    seq![0x1bu8, 0x5bu8, 0x47u8]
}

/// The bracketed part of the status line: the frame ordinal left-padded to
/// width 6, the payload byte-size left-padded to width 6 followed by `b`,
/// and the timecode split into zero-padded hours, minutes, seconds and
/// milliseconds.
pub open spec fn status_core(frame_count: u64, size: u64, timecode: u64) -> Seq<u8> {
    open_lit() + dec_padded(frame_count as nat, 6, 0x20) + mid_lit() + dec_padded(
        size as nat,
        6,
        0x20,
    ) + size_lit() + dec_padded((timecode / 3600000) as nat, 2, 0x30) + colon_lit() + dec_padded(
        ((timecode / 60000) % 60) as nat,
        2,
        0x30,
    ) + colon_lit() + dec_padded(((timecode / 1000) % 60) as nat, 2, 0x30) + dot_lit()
        + dec_padded((timecode % 1000) as nat, 3, 0x30) + close_lit()
}

/// The whole rendered status line: the bracketed part, the drop counter
/// when it is nonzero, and the cursor-reset sequence. A pure function of
/// the four values.
pub open spec fn status_line(frame_count: u64, size: u64, timecode: u64, dropped: u64) -> Seq<
    u8,
> {
    (if dropped > 0 {
        status_core(frame_count, size, timecode) + dropped_lit() + dec_of(dropped as nat)
    } else {
        status_core(frame_count, size, timecode)
    }) + cursor_reset()
}

fn append_open_lit(out: &mut Vec<u8>)
    ensures
        final(out)@ == old(out)@ + open_lit(),
{
    out.push(0x20);
    out.push(0x20);
    out.push(0x5b);
    proof {
        assert(out@ =~= old(out)@ + open_lit());
    }
}

fn append_mid_lit(out: &mut Vec<u8>)
    ensures
        final(out)@ == old(out)@ + mid_lit(),
{
    out.push(0x5d);
    out.push(0x5b);
    proof {
        assert(out@ =~= old(out)@ + mid_lit());
    }
}

fn append_size_lit(out: &mut Vec<u8>)
    ensures
        final(out)@ == old(out)@ + size_lit(),
{
    out.push(0x62);
    out.push(0x5d);
    out.push(0x5b);
    proof {
        assert(out@ =~= old(out)@ + size_lit());
    }
}

fn append_colon(out: &mut Vec<u8>)
    ensures
        final(out)@ == old(out)@ + colon_lit(),
{
    out.push(0x3a);
    proof {
        assert(out@ =~= old(out)@ + colon_lit());
    }
}

fn append_dot(out: &mut Vec<u8>)
    ensures
        final(out)@ == old(out)@ + dot_lit(),
{
    out.push(0x2e);
    proof {
        assert(out@ =~= old(out)@ + dot_lit());
    }
}

fn append_close(out: &mut Vec<u8>)
    ensures
        final(out)@ == old(out)@ + close_lit(),
{
    out.push(0x5d);
    proof {
        assert(out@ =~= old(out)@ + close_lit());
    }
}

fn append_dropped_lit(out: &mut Vec<u8>)
    ensures
        final(out)@ == old(out)@ + dropped_lit(),
{
    out.push(0x20);
    out.push(0x44);
    out.push(0x72);
    out.push(0x6f);
    out.push(0x70);
    out.push(0x70);
    out.push(0x65);
    out.push(0x64);
    out.push(0x20);
    out.push(0x66);
    out.push(0x72);
    out.push(0x61);
    out.push(0x6d);
    out.push(0x65);
    out.push(0x73);
    out.push(0x3a);
    out.push(0x20);
    proof {
        assert(out@ =~= old(out)@ + dropped_lit());
    }
}

fn append_cursor_reset(out: &mut Vec<u8>)
    ensures
        final(out)@ == old(out)@ + cursor_reset(),
{
    out.push(0x1b);
    out.push(0x5b);
    out.push(0x47);
    proof {
        assert(out@ =~= old(out)@ + cursor_reset());
    }
}

/// Render the status line for a frame: its ordinal, its payload size, its
/// timecode broken into hours, minutes, seconds and milliseconds, and the
/// drop counter when it is nonzero.
pub fn render_status(frame_count: u64, size: u64, timecode: u64, dropped: u64) -> (r: Vec<u8>)
    ensures
        r@ == status_line(frame_count, size, timecode, dropped),
{
    let t_hh = timecode / 3600000;
    let t_mm = (timecode / 60000) % 60;
    let t_ss = (timecode / 1000) % 60;
    let t_ms = timecode % 1000;
    let mut out: Vec<u8> = Vec::new();
    append_open_lit(&mut out);
    proof {
        assert(out@ =~= open_lit());
    }
    append_dec_padded(&mut out, frame_count, 6, 0x20);
    append_mid_lit(&mut out);
    append_dec_padded(&mut out, size, 6, 0x20);
    append_size_lit(&mut out);
    append_dec_padded(&mut out, t_hh, 2, 0x30);
    append_colon(&mut out);
    append_dec_padded(&mut out, t_mm, 2, 0x30);
    append_colon(&mut out);
    append_dec_padded(&mut out, t_ss, 2, 0x30);
    append_dot(&mut out);
    append_dec_padded(&mut out, t_ms, 3, 0x30);
    append_close(&mut out);
    if dropped > 0 {
        append_dropped_lit(&mut out);
        let dv = dec_u64(dropped);
        append_bytes(&mut out, &dv);
    }
    append_cursor_reset(&mut out);
    out
}

/// One frame's combined output write: the (possibly suppressed) payload
/// followed by the rendered status line.
pub fn compose_frame_output(
    payload: &Vec<u8>,
    frame_count: u64,
    size: u64,
    timecode: u64,
    dropped: u64,
) -> (r: Vec<u8>)
    ensures
        r@ == payload@ + status_line(frame_count, size, timecode, dropped),
{
    let mut out: Vec<u8> = Vec::new();
    append_bytes(&mut out, payload);
    proof {
        assert(out@ =~= payload@);
    }
    let status = render_status(frame_count, size, timecode, dropped);
    append_bytes(&mut out, &status);
    out
}

/// Status rendering is idempotent: the rendered line is a pure,
/// deterministic function of the frame ordinal, the payload size, the
/// timecode, and the drop counter — two renderings from the same four
/// values agree byte for byte.
pub proof fn lemma_status_rendering_deterministic(
    a: Seq<u8>,
    b: Seq<u8>,
    frame_count: u64,
    size: u64,
    timecode: u64,
    dropped: u64,
)
    requires
        a == status_line(frame_count, size, timecode, dropped),
        b == status_line(frame_count, size, timecode, dropped),
    ensures
        a == b,
{
}

} // verus!
