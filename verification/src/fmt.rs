//! Decimal rendering and field padding for the status overlay.

use vstd::prelude::*;

verus! {

/// The decimal digits of `n`, most significant first, as ASCII bytes.
pub open spec fn dec_of(n: nat) -> Seq<u8>
    decreases n,
{
    if n < 10 {
        seq![(0x30 + n) as u8]
    } else {
        dec_of(n / 10).push((0x30 + n % 10) as u8)
    }
}

/// `s` padded on the left with `fill` bytes up to width `w`; `s` itself if
/// it is already at least `w` bytes long.
pub open spec fn pad_left(s: Seq<u8>, w: nat, fill: u8) -> Seq<u8> {
    if s.len() >= w {
        s
    } else {
        Seq::new((w - s.len()) as nat, |i: int| fill) + s
    }
}

/// The decimal digits of `n`, right-aligned in a field of width `w` padded
/// with `fill`.
pub open spec fn dec_padded(n: nat, w: nat, fill: u8) -> Seq<u8> {
    pad_left(dec_of(n), w, fill)
}

/// Render `n` in decimal.
pub fn dec_u64(n: u64) -> (r: Vec<u8>)
    ensures
        r@ == dec_of(n as nat),
    decreases n,
{
    if n < 10 {
        let mut v: Vec<u8> = Vec::new();
        v.push(0x30 + (n as u8));
        proof {
            assert(v@ =~= dec_of(n as nat));
        }
        v
    } else {
        let mut v = dec_u64(n / 10);
        v.push(0x30 + ((n % 10) as u8));
        v
    }
}

/// Append every byte of `v` to `out`.
pub fn append_bytes(out: &mut Vec<u8>, v: &Vec<u8>)
    ensures
        final(out)@ == old(out)@ + v@,
{
    let mut j: usize = 0;
    while j < v.len()
        invariant
            j <= v@.len(),
            out@ == old(out)@ + v@.subrange(0, j as int),
        decreases v@.len() - j,
    {
        let b = v[j];
        out.push(b);
        proof {
            assert(out@ =~= old(out)@ + v@.subrange(0, j + 1));
        }
        j = j + 1;
    }
    proof {
        assert(out@ =~= old(out)@ + v@);
    }
}

/// Append `n` in decimal, right-aligned in a field of width `w` padded with
/// `fill`.
pub fn append_dec_padded(out: &mut Vec<u8>, n: u64, w: usize, fill: u8)
    ensures
        final(out)@ == old(out)@ + dec_padded(n as nat, w as nat, fill),
{
    let digits = dec_u64(n);
    let mut i: usize = digits.len();
    while i < w
        invariant
            digits@.len() <= i <= w || (digits@.len() >= w && i == digits@.len()),
            digits@ == dec_of(n as nat),
            out@ == old(out)@ + Seq::new((i - digits@.len()) as nat, |k: int| fill),
        decreases w - i,
    {
        out.push(fill);
        proof {
            assert(out@ =~= old(out)@ + Seq::new((i + 1 - digits@.len()) as nat, |k: int| fill));
        }
        i = i + 1;
    }
    append_bytes(out, &digits);
    proof {
        if digits@.len() >= w {
            assert(Seq::new(0, |k: int| fill) =~= Seq::<u8>::empty());
            assert(out@ =~= old(out)@ + dec_padded(n as nat, w as nat, fill));
        } else {
            assert(out@ =~= old(out)@ + dec_padded(n as nat, w as nat, fill));
        }
    }
}

} // verus!
