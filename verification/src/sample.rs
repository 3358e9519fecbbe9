//! Assembly of magnetometer samples from raw burst bytes.
//!
//! A 6-byte output burst carries three little-endian signed 16-bit
//! values in axis order X, Z, Y — not X, Y, Z; this is how the device
//! delivers them and the reorder is preserved here.

use vstd::prelude::*;

verus! {

/// One decoded magnetometer sample: three signed 16-bit axis values.
#[derive(Clone, Copy, PartialEq, Eq, Structural, Debug)]
pub struct SampleTriple {
    pub x: i16,
    pub y: i16,
    pub z: i16,
}

/// The 16-bit two's-complement image of a signed axis value.
pub open spec fn unsigned16(v: int) -> int {
    if v >= 0 {
        v
    } else {
        v + 65536
    }
}

/// The signed reading of a 16-bit word.
pub open spec fn signed16(w: int) -> int {
    if w < 32768 {
        w
    } else {
        w - 65536
    }
}

/// The 16-bit word assembled from a low and a high byte.
pub open spec fn word_of(lo: u8, hi: u8) -> int {
    lo + 256 * hi
}

/// Low byte of a 16-bit word.
pub open spec fn lo_byte(w: int) -> u8 {
    (w % 256) as u8
}

/// High byte of a 16-bit word.
pub open spec fn hi_byte(w: int) -> u8 {
    ((w / 256) % 256) as u8
}

/// The sample a 6-byte burst decodes to: bytes 0-1 are X, 2-3 are Z,
/// 4-5 are Y, each low byte first.
pub open spec fn decode_spec(b: Seq<u8>) -> SampleTriple
    recommends
        b.len() == 6,
{
    SampleTriple {
        x: signed16(word_of(b[0], b[1])) as i16,
        z: signed16(word_of(b[2], b[3])) as i16,
        y: signed16(word_of(b[4], b[5])) as i16,
    }
}

/// The 6-byte burst a sample encodes to: the inverse layout of
/// [`decode_spec`].
pub open spec fn encode_spec(s: SampleTriple) -> Seq<u8> {
    seq![
        lo_byte(unsigned16(s.x as int)),
        hi_byte(unsigned16(s.x as int)),
        lo_byte(unsigned16(s.z as int)),
        hi_byte(unsigned16(s.z as int)),
        lo_byte(unsigned16(s.y as int)),
        hi_byte(unsigned16(s.y as int)),
    ]
}

/// Read one axis value out of its low and high burst bytes.
fn decode_axis(lo: u8, hi: u8) -> (v: i16)
    ensures
        v as int == signed16(word_of(lo, hi)),
{
    let w: u16 = (hi as u16) * 256 + (lo as u16);
    if w < 32768 {
        w as i16
    } else {
        ((w as i32) - 65536) as i16
    }
}

/// Split one axis value into its low and high burst bytes.
fn encode_axis(v: i16) -> (b: (u8, u8))
    ensures
        b.0 == lo_byte(unsigned16(v as int)),
        b.1 == hi_byte(unsigned16(v as int)),
{
    let w: u16 = if v >= 0 {
        v as u16
    } else {
        ((v as i32) + 65536) as u16
    };
    ((w % 256) as u8, (w / 256) as u8)
}

/// Assemble three signed 16-bit axis values from six raw burst
/// bytes, in the device's X, Z, Y byte order.
pub fn decode_sample(buffer: &[u8; 6]) -> (s: SampleTriple)
    ensures
        s == decode_spec(buffer@),
{
    let x = decode_axis(buffer[0], buffer[1]);
    let z = decode_axis(buffer[2], buffer[3]);
    let y = decode_axis(buffer[4], buffer[5]);
    SampleTriple { x, y, z }
}

/// Lay a sample out as the six burst bytes the device would deliver
/// for it: the inverse of [`decode_sample`].
pub fn encode_sample(s: SampleTriple) -> (b: [u8; 6])
    ensures
        b@ == encode_spec(s),
{
    let (xl, xh) = encode_axis(s.x);
    let (zl, zh) = encode_axis(s.z);
    let (yl, yh) = encode_axis(s.y);
    let out: [u8; 6] = [xl, xh, zl, zh, yl, yh];
    proof {
        assert(out@ =~= encode_spec(s));
    }
    out
}

/// Law: encoding a sample into six bytes and decoding them again
/// reproduces the sample, for every representable triple.
pub proof fn lemma_encode_decode(s: SampleTriple)
    ensures
        decode_spec(encode_spec(s)) == s,
{
    lemma_axis_round_trip(s.x);
    lemma_axis_round_trip(s.z);
    lemma_axis_round_trip(s.y);
}

/// Law, per axis: the two bytes of an encoded value reassemble to
/// that value.
pub proof fn lemma_axis_round_trip(v: i16)
    ensures
        signed16(word_of(lo_byte(unsigned16(v as int)), hi_byte(unsigned16(v as int)))) == v,
{
    let u = unsigned16(v as int);
    assert(0 <= u < 65536);
    assert(u == 256 * (u / 256) + u % 256) by (nonlinear_arith);
    assert(u / 256 < 256) by (nonlinear_arith)
        requires
            0 <= u < 65536,
    ;
}

} // verus!
