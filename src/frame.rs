//! Binary wire frames: nine little-endian 32-bit words, in the order
//! ax, ay, az, gx, gy, gz, mx, my, mz.
//!
//! Each word is the bit pattern of an IEEE-754 single-precision value; the
//! library keeps it as a `u32` and leaves the reinterpretation to the caller
//! (`f32::from_bits`).
use vstd::prelude::*;

verus! {

/// Length in bytes of one complete binary frame.
pub const FRAME_LEN: usize = 36;

/// A 3-axis measurement whose components are single-precision bit patterns.
#[derive(Clone, Copy, Debug, PartialEq, Eq, Structural)]
pub struct Axes {
    pub x: u32,
    pub y: u32,
    pub z: u32,
}

/// One decoded frame: accelerometer, gyroscope (degrees per second) and
/// magnetometer readings, each as single-precision bit patterns.
#[derive(Clone, Copy, Debug, PartialEq, Eq, Structural)]
pub struct RawFrame {
    pub accel: Axes,
    pub gyro: Axes,
    pub mag: Axes,
}

/// The unsigned value of the little-endian word that starts at byte `i` of `b`.
pub open spec fn le_word(b: Seq<u8>, i: int) -> int {
    b[i] as int + 256 * (b[i + 1] as int) + 65536 * (b[i + 2] as int) + 16777216 * (b[i + 3] as int)
}

/// The three words that start at byte `i` of `b`, as a measurement.
pub open spec fn axes_at(b: Seq<u8>, i: int) -> Axes {
    Axes {
        x: le_word(b, i) as u32,
        y: le_word(b, i + 4) as u32,
        z: le_word(b, i + 8) as u32,
    }
}

/// What a read of the bytes `b` yields: a frame exactly when the read is complete.
pub open spec fn spec_decode_frame(b: Seq<u8>) -> Option<RawFrame> {
    if b.len() == FRAME_LEN {
        Some(RawFrame { accel: axes_at(b, 0), gyro: axes_at(b, 12), mag: axes_at(b, 24) })
    } else {
        None
    }
}

/// The four little-endian bytes of `w`.
pub open spec fn word_bytes(w: u32) -> Seq<u8> {
    seq![
        (w % 256) as u8,
        ((w / 256) % 256) as u8,
        ((w / 65536) % 256) as u8,
        (w / 16777216) as u8,
    ]
}

/// The twelve bytes of a measurement.
pub open spec fn axes_bytes(a: Axes) -> Seq<u8> {
    word_bytes(a.x) + word_bytes(a.y) + word_bytes(a.z)
}

/// The 36 bytes that carry the frame `f` on the wire.
pub open spec fn spec_encode_frame(f: RawFrame) -> Seq<u8> {
    axes_bytes(f.accel) + axes_bytes(f.gyro) + axes_bytes(f.mag)
}

/// Reads the little-endian word that starts at byte `i` of `b`.
fn read_word(b: &[u8], i: usize) -> (r: u32)
    requires
        i + 4 <= b@.len(),
    ensures
        r as int == le_word(b@, i as int),
{
    let b0 = b[i] as u32;
    let b1 = b[i + 1] as u32;
    let b2 = b[i + 2] as u32;
    let b3 = b[i + 3] as u32;
    b0 + 256 * b1 + 65536 * b2 + 16777216 * b3
}

fn read_axes(b: &[u8], i: usize) -> (r: Axes)
    requires
        i + 12 <= b@.len(),
    ensures
        r == axes_at(b@, i as int),
{
    let n = b.len();
    assert(i + 12 <= n);
    let x = read_word(b, i);
    let y = read_word(b, i + 4);
    let z = read_word(b, i + 8);
    Axes { x, y, z }
}

/// Decodes the bytes of one read. Only a complete 36-byte read gives a
/// frame; a short or overlong read gives none, and since the decoder holds no
/// state, the next complete read decodes on its own.
pub fn decode_frame(b: &[u8]) -> (r: Option<RawFrame>)
    ensures
        r == spec_decode_frame(b@),
{
    if b.len() != FRAME_LEN {
        return None;
    }
    let accel = read_axes(b, 0);
    let gyro = read_axes(b, 12);
    let mag = read_axes(b, 24);
    Some(RawFrame { accel, gyro, mag })
}

fn push_word(out: &mut Vec<u8>, w: u32)
    ensures
        final(out)@ == old(out)@ + word_bytes(w),
{
    out.push((w % 256) as u8);
    out.push(((w / 256) % 256) as u8);
    out.push(((w / 65536) % 256) as u8);
    out.push((w / 16777216) as u8);
    assert(final(out)@ =~= old(out)@ + word_bytes(w));
}

fn push_axes(out: &mut Vec<u8>, a: Axes)
    ensures
        final(out)@ == old(out)@ + axes_bytes(a),
{
    push_word(out, a.x);
    push_word(out, a.y);
    push_word(out, a.z);
    assert(final(out)@ =~= old(out)@ + axes_bytes(a));
}

/// Encodes a frame as the 36 bytes that carry it on the wire.
pub fn encode_frame(f: &RawFrame) -> (r: Vec<u8>)
    ensures
        r@ == spec_encode_frame(*f),
{
    let mut out: Vec<u8> = Vec::new();
    push_axes(&mut out, f.accel);
    push_axes(&mut out, f.gyro);
    push_axes(&mut out, f.mag);
    assert(out@ =~= spec_encode_frame(*f));
    out
}

proof fn lemma_word_bytes_value(w: u32)
    ensures
        le_word(word_bytes(w), 0) == w as int,
{
    let b = word_bytes(w);
    assert(w as int == (w % 256) + 256 * ((w / 256) % 256) + 65536 * ((w / 65536) % 256)
        + 16777216 * (w / 16777216)) by (bit_vector);
}

proof fn lemma_value_word_bytes(b: Seq<u8>, i: int)
    requires
        0 <= i,
        i + 4 <= b.len(),
    ensures
        word_bytes(le_word(b, i) as u32) =~= b.subrange(i, i + 4),
{
    let (b0, b1, b2, b3) = (b[i], b[i + 1], b[i + 2], b[i + 3]);
    let w: u32 = le_word(b, i) as u32;
    assert(le_word(b, i) < 0x1_0000_0000);
    assert(w as int == b0 as int + 256 * (b1 as int) + 65536 * (b2 as int) + 16777216 * (b3 as int));
    assert(w % 256 == b0 as u32 && (w / 256) % 256 == b1 as u32 && (w / 65536) % 256 == b2 as u32
        && w / 16777216 == b3 as u32) by (bit_vector)
        requires
            w == b0 as u32 + 256 * (b1 as u32) + 65536 * (b2 as u32) + 16777216 * (b3 as u32),
    ;
}

proof fn lemma_axes_round_trip(a: Axes, b: Seq<u8>, n: int)
    requires
        0 <= n,
        n + 12 <= b.len(),
        b.subrange(n, n + 12) == axes_bytes(a),
    ensures
        axes_at(b, n) == a,
{
    lemma_word_bytes_value(a.x);
    lemma_word_bytes_value(a.y);
    lemma_word_bytes_value(a.z);
    let s = b.subrange(n, n + 12);
    assert(s[0] == b[n] && s[1] == b[n + 1] && s[2] == b[n + 2] && s[3] == b[n + 3]);
    assert(s[4] == b[n + 4] && s[5] == b[n + 5] && s[6] == b[n + 6] && s[7] == b[n + 7]);
    assert(s[8] == b[n + 8] && s[9] == b[n + 9] && s[10] == b[n + 10] && s[11] == b[n + 11]);
    assert(le_word(b, n) == le_word(word_bytes(a.x), 0));
    assert(le_word(b, n + 4) == le_word(word_bytes(a.y), 0));
    assert(le_word(b, n + 8) == le_word(word_bytes(a.z), 0));
}

/// Decoding the bytes that encode a frame gives back that frame, word for
/// word (and so bit for bit for the values the words carry).
pub proof fn lemma_decode_encode(f: RawFrame)
    ensures
        spec_decode_frame(spec_encode_frame(f)) == Some(f),
{
    let e = spec_encode_frame(f);
    assert(e.subrange(0, 12) =~= axes_bytes(f.accel));
    assert(e.subrange(12, 24) =~= axes_bytes(f.gyro));
    assert(e.subrange(24, 36) =~= axes_bytes(f.mag));
    lemma_axes_round_trip(f.accel, e, 0);
    lemma_axes_round_trip(f.gyro, e, 12);
    lemma_axes_round_trip(f.mag, e, 24);
}

/// Every complete read is the encoding of the frame it decodes to: the wire
/// format has exactly one byte string per frame.
pub proof fn lemma_encode_decode(b: Seq<u8>)
    requires
        b.len() == FRAME_LEN,
    ensures
        spec_encode_frame(spec_decode_frame(b).unwrap()) == b,
{
    lemma_value_word_bytes(b, 0);
    lemma_value_word_bytes(b, 4);
    lemma_value_word_bytes(b, 8);
    lemma_value_word_bytes(b, 12);
    lemma_value_word_bytes(b, 16);
    lemma_value_word_bytes(b, 20);
    lemma_value_word_bytes(b, 24);
    lemma_value_word_bytes(b, 28);
    lemma_value_word_bytes(b, 32);
    let f = spec_decode_frame(b).unwrap();
    assert(spec_encode_frame(f) =~= b);
}

/// A read shorter or longer than a frame yields no frame, and a complete read
/// that follows it still decodes to the frame it carries: a bad read never
/// shifts the framing of later ones.
pub proof fn lemma_bad_read_then_frame(bad: Seq<u8>, f: RawFrame)
    requires
        bad.len() != FRAME_LEN,
    ensures
        spec_decode_frame(bad) is None,
        spec_decode_frame(spec_encode_frame(f)) == Some(f),
{
    lemma_decode_encode(f);
}

} // verus!
