//! The codec-sniffing source: wraps the raw bytes of a recording, matches
//! known compressed-container signatures against the leading bytes, and
//! transparently decompresses, so that reads always yield the logical
//! (decompressed) bytes of the recording.

use vstd::prelude::*;

verus! {

/// Which container format the leading bytes of a stream announce.
#[derive(Clone, Copy, Debug, PartialEq, Eq, Structural)]
pub enum Codec {
    Raw,
    Gzip,
    Xz,
    Zstd,
}

/// A decompressor reported that the stream is corrupt or truncated.
#[derive(Clone, Copy, Debug, PartialEq, Eq, Structural)]
pub enum DecodeError {
    Corrupt,
}

pub open spec fn gzip_magic() -> Seq<u8> {
    seq![0x1fu8, 0x8bu8, 0x08u8]
}

pub open spec fn xz_magic() -> Seq<u8> {
    seq![0xfdu8, 0x37u8, 0x7au8, 0x58u8, 0x5au8, 0x00u8]
}

pub open spec fn zstd_magic() -> Seq<u8> {
    seq![0x28u8, 0xb5u8, 0x2fu8, 0xfdu8]
}

/// The codec that signature matching selects, checked in the fixed priority
/// order gzip, xz, zstd; a stream shorter than a signature never matches it.
pub open spec fn sniff_spec(s: Seq<u8>) -> Codec {
    if s.len() >= 3 && s.subrange(0, 3) == gzip_magic() {
        Codec::Gzip
    } else if s.len() >= 6 && s.subrange(0, 6) == xz_magic() {
        Codec::Xz
    } else if s.len() >= 4 && s.subrange(0, 4) == zstd_magic() {
        Codec::Zstd
    } else {
        Codec::Raw
    }
}

/// Does `bytes` start with `pat`?
fn starts_with(bytes: &Vec<u8>, pat: &Vec<u8>) -> (r: bool)
    ensures
        r == (bytes@.len() >= pat@.len() && bytes@.subrange(0, pat@.len() as int) == pat@),
{
    if bytes.len() < pat.len() {
        return false;
    }
    let mut i: usize = 0;
    while i < pat.len()
        invariant
            i <= pat@.len() <= bytes@.len(),
            forall|j: int| 0 <= j < i ==> bytes@[j] == pat@[j],
        decreases pat@.len() - i,
    {
        if bytes[i] != pat[i] {
            proof {
                assert(bytes@.subrange(0, pat@.len() as int)[i as int] == bytes@[i as int]);
            }
            return false;
        }
        i = i + 1;
    }
    proof {
        assert(bytes@.subrange(0, pat@.len() as int) =~= pat@);
    }
    true
}

fn gzip_magic_bytes() -> (r: Vec<u8>)
    ensures
        r@ == gzip_magic(),
{
    let mut v: Vec<u8> = Vec::new();
    v.push(0x1f);
    v.push(0x8b);
    v.push(0x08);
    proof {
        assert(v@ =~= gzip_magic());
    }
    v
}

fn xz_magic_bytes() -> (r: Vec<u8>)
    ensures
        r@ == xz_magic(),
{
    let mut v: Vec<u8> = Vec::new();
    v.push(0xfd);
    v.push(0x37);
    v.push(0x7a);
    v.push(0x58);
    v.push(0x5a);
    v.push(0x00);
    proof {
        assert(v@ =~= xz_magic());
    }
    v
}

fn zstd_magic_bytes() -> (r: Vec<u8>)
    ensures
        r@ == zstd_magic(),
{
    let mut v: Vec<u8> = Vec::new();
    v.push(0x28);
    v.push(0xb5);
    v.push(0x2f);
    v.push(0xfd);
    proof {
        assert(v@ =~= zstd_magic());
    }
    v
}

/// Match the leading bytes of `bytes` against the registered signatures.
pub fn sniff(bytes: &Vec<u8>) -> (c: Codec)
    ensures
        c == sniff_spec(bytes@),
{
    if starts_with(bytes, &gzip_magic_bytes()) {
        Codec::Gzip
    } else if starts_with(bytes, &xz_magic_bytes()) {
        Codec::Xz
    } else if starts_with(bytes, &zstd_magic_bytes()) {
        Codec::Zstd
    } else {
        Codec::Raw
    }
}

/// What gzip decoding yields on `s`: the decompressed bytes, or nothing if
/// the stream is corrupt or truncated. Decoding depends on the input bytes
/// alone.
pub uninterp spec fn gunzip_of(s: Seq<u8>) -> Option<Seq<u8>>;

/// What xz decoding yields on `s`, or nothing if the stream is corrupt or
/// truncated. Decoding depends on the input bytes alone.
pub uninterp spec fn unxz_of(s: Seq<u8>) -> Option<Seq<u8>>;

/// What zstd decoding yields on `s`, or nothing if the stream is corrupt or
/// truncated. Decoding depends on the input bytes alone.
pub uninterp spec fn unzstd_of(s: Seq<u8>) -> Option<Seq<u8>>;

/// Relies on flate2's bufread::MultiGzDecoder, read to the end of all gzip
/// members: deterministic decoding of the input bytes, a read failure on a
/// corrupt or truncated stream.
#[verifier::external_body]
fn gunzip(bytes: &Vec<u8>) -> (r: Option<Vec<u8>>)
    ensures
        match gunzip_of(bytes@) {
            Option::Some(d) => r matches Option::Some(v) && v@ == d,
            Option::None => r is None,
        },
{
    let mut dec = flate2::bufread::MultiGzDecoder::new(bytes.as_slice());
    let mut out: Vec<u8> = Vec::new();
    match std::io::Read::read_to_end(&mut dec, &mut out) {
        Ok(_) => Some(out),
        Err(_) => None,
    }
}

/// Relies on xz2's bufread::XzDecoder, read to the end of the stream:
/// deterministic decoding of the input bytes, a read failure on a corrupt
/// or truncated stream.
#[verifier::external_body]
fn unxz(bytes: &Vec<u8>) -> (r: Option<Vec<u8>>)
    ensures
        match unxz_of(bytes@) {
            Option::Some(d) => r matches Option::Some(v) && v@ == d,
            Option::None => r is None,
        },
{
    let mut dec = xz2::bufread::XzDecoder::new(bytes.as_slice());
    let mut out: Vec<u8> = Vec::new();
    match std::io::Read::read_to_end(&mut dec, &mut out) {
        Ok(_) => Some(out),
        Err(_) => None,
    }
}

/// Relies on zstd's stream::decode_all: deterministic decoding of the input
/// bytes, a failure on a corrupt or truncated stream.
#[verifier::external_body]
fn unzstd(bytes: &Vec<u8>) -> (r: Option<Vec<u8>>)
    ensures
        match unzstd_of(bytes@) {
            Option::Some(d) => r matches Option::Some(v) && v@ == d,
            Option::None => r is None,
        },
{
    match zstd::stream::decode_all(bytes.as_slice()) {
        Ok(out) => Some(out),
        Err(_) => None,
    }
}

/// The logical bytes that the codec-sniffing source exposes for the raw
/// bytes `s`: `s` itself when no signature matches, otherwise the
/// decompressed bytes, or nothing when the matched decompressor fails.
pub open spec fn decoded_of(s: Seq<u8>) -> Option<Seq<u8>> {
    match sniff_spec(s) {
        Codec::Raw => Option::Some(s),
        Codec::Gzip => gunzip_of(s),
        Codec::Xz => unxz_of(s),
        Codec::Zstd => unzstd_of(s),
    }
}

/// The codec-sniffing source: the decompressed logical bytes of a
/// recording, with a cursor, plus a display label.
pub struct Input {
    /// Display label for diagnostics.
    pub label: String,
    /// The decompressed logical bytes of the recording.
    pub bytes: Vec<u8>,
    /// How many of `bytes` have been consumed.
    pub pos: usize,
}

impl Input {
    /// The cursor never passes the end of the stream.
    pub open spec fn wf(&self) -> bool {
        self.pos <= self.bytes@.len()
    }

    /// Wrap the raw bytes of a recording: match the leading bytes against
    /// the known signatures and decompress when one matches, otherwise pass
    /// the bytes through unchanged (so an unmatched stream is reproduced
    /// byte for byte).
    pub fn reader(bytes: Vec<u8>, label: &str) -> (r: Result<Input, DecodeError>)
        ensures
            match decoded_of(bytes@) {
                Option::Some(d) => r matches Ok(inp) && inp.bytes@ == d && inp.pos == 0
                    && inp.label@ == label@ && inp.wf(),
                Option::None => r matches Err(e) && e == DecodeError::Corrupt,
            },
    {
        let decoded = match sniff(&bytes) {
            Codec::Raw => bytes,
            Codec::Gzip => match gunzip(&bytes) {
                Option::Some(d) => d,
                Option::None => {
                    return Err(DecodeError::Corrupt);
                },
            },
            Codec::Xz => match unxz(&bytes) {
                Option::Some(d) => d,
                Option::None => {
                    return Err(DecodeError::Corrupt);
                },
            },
            Codec::Zstd => match unzstd(&bytes) {
                Option::Some(d) => d,
                Option::None => {
                    return Err(DecodeError::Corrupt);
                },
            },
        };
        Ok(Input { label: label.to_owned(), bytes: decoded, pos: 0 })
    }

    /// The display label of this source.
    pub fn as_label(&self) -> (r: String)
        ensures
            r@ == self.label@,
    {
        self.label.clone()
    }
}

} // verus!
