//! The binary frame layer of the sonar protocol: two start bytes `B` `R`, a
//! little-endian payload length, a little-endian message id, source and
//! destination device bytes, the payload, and a trailing checksum that is the
//! wrapping 16-bit sum of every preceding byte.
//!
//! Serialization and parsing are verified against one spec-level byte layout,
//! and parsing classifies exactly why a byte string is rejected.

use vstd::prelude::*;

verus! {

/// First start byte, ASCII `B`.
pub const START1: u8 = 66;

/// Second start byte, ASCII `R`.
pub const START2: u8 = 82;

/// A parsed frame; the payload length and the checksum are implied.
#[derive(Clone, Debug)]
pub struct Frame {
    pub message_id: u16,
    pub src_device_id: u8,
    pub dst_device_id: u8,
    pub payload: Vec<u8>,
}

impl Frame {
    /// The payload fits the 16-bit length field.
    pub open spec fn wf(self) -> bool {
        self.payload@.len() <= 0xffff
    }
}

/// Why a byte string is not a frame.
#[derive(Clone, Copy, Debug, PartialEq, Eq, Structural)]
pub enum DecodeError {
    /// The first two bytes are not the start marker.
    InvalidStart,
    /// Too short, or the length field disagrees with the byte count.
    Incomplete,
    /// The trailing checksum disagrees with the byte sum.
    BadChecksum,
}

/// The two little-endian bytes of a 16-bit value.
pub open spec fn le16(v: u16) -> Seq<u8> {
    seq![(v % 256) as u8, (v / 256) as u8]
}

/// The 16-bit value read from two little-endian bytes at `i`.
pub open spec fn le16_at(b: Seq<u8>, i: int) -> u16 {
    (b[i] + b[i + 1] * 256) as u16
}

/// Wrapping 16-bit addition of one byte.
pub open spec fn add_mod16(a: u16, x: u8) -> u16 {
    ((a + x) % 0x10000) as u16
}

/// Wrapping 16-bit sum of a byte string.
pub open spec fn sum_bytes(s: Seq<u8>) -> u16
    decreases s.len(),
{
    if s.len() == 0 {
        0u16
    } else {
        add_mod16(sum_bytes(s.drop_last()), s.last())
    }
}

proof fn lemma_sum_bytes_push(s: Seq<u8>, x: u8)
    ensures
        sum_bytes(s.push(x)) == add_mod16(sum_bytes(s), x),
{
    assert(s.push(x).drop_last() =~= s);
}

/// The frame bytes before the checksum.
pub open spec fn body_bytes(f: Frame) -> Seq<u8> {
    seq![START1, START2] + le16(f.payload@.len() as u16) + le16(f.message_id)
        + seq![f.src_device_id, f.dst_device_id] + f.payload@
}

/// The checksum carried by a well-formed frame.
pub open spec fn frame_checksum(f: Frame) -> u16 {
    sum_bytes(body_bytes(f))
}

/// The full wire form of a frame.
pub open spec fn frame_bytes(f: Frame) -> Seq<u8> {
    body_bytes(f) + le16(frame_checksum(f))
}

/// The byte string opens with something other than the start marker.
pub open spec fn starts_badly(b: Seq<u8>) -> bool {
    b.len() >= 2 && !(b[0] == START1 && b[1] == START2)
}

/// The byte string is too short or its length field disagrees.
pub open spec fn length_bad(b: Seq<u8>) -> bool {
    !starts_badly(b) && (b.len() < 10 || b.len() != 10 + le16_at(b, 2))
}

/// Start and length are right but the checksum is not.
pub open spec fn checksum_bad(b: Seq<u8>) -> bool {
    !starts_badly(b) && !length_bad(b) && le16_at(b, b.len() - 2) != sum_bytes(
        b.subrange(0, b.len() - 2),
    )
}

/// The byte string is exactly one checksum-valid frame.
pub open spec fn valid_frame_bytes(b: Seq<u8>) -> bool {
    !starts_badly(b) && !length_bad(b) && !checksum_bad(b)
}

/// Wrapping 16-bit sum of the first `n` bytes of a vector.
pub fn checksum_prefix(v: &Vec<u8>, n: usize) -> (r: u16)
    requires
        n <= v@.len(),
    ensures
        r == sum_bytes(v@.subrange(0, n as int)),
{
    let mut c: u16 = 0;
    let mut i: usize = 0;
    while i < n
        invariant
            i <= n,
            n <= v@.len(),
            c == sum_bytes(v@.subrange(0, i as int)),
        decreases n - i,
    {
        let b = v[i];
        proof {
            lemma_sum_bytes_push(v@.subrange(0, i as int), b);
            assert(v@.subrange(0, i as int).push(b) =~= v@.subrange(0, i + 1));
        }
        c = (((c as u32) + (b as u32)) % 0x10000) as u16;
        i = i + 1;
    }
    proof {
        assert(v@.subrange(0, n as int) =~= v@.subrange(0, n as int));
    }
    c
}

/// Serializes a frame into its exact wire form.
pub fn serialize_frame(f: &Frame) -> (r: Vec<u8>)
    requires
        f.wf(),
    ensures
        r@ == frame_bytes(*f),
{
    let plen: u16 = f.payload.len() as u16;
    let mut out: Vec<u8> = Vec::new();
    out.push(START1);
    out.push(START2);
    out.push((plen % 256) as u8);
    out.push((plen / 256) as u8);
    out.push((f.message_id % 256) as u8);
    out.push((f.message_id / 256) as u8);
    out.push(f.src_device_id);
    out.push(f.dst_device_id);
    let mut i: usize = 0;
    while i < f.payload.len()
        invariant
            i <= f.payload@.len(),
            f.wf(),
            plen == f.payload@.len() as u16,
            out@ == body_bytes(*f).subrange(0, 8 + i as int),
        decreases f.payload@.len() - i,
    {
        proof {
            assert(body_bytes(*f)[8 + i as int] == f.payload@[i as int]);
            assert(out@.push(f.payload@[i as int]) =~= body_bytes(*f).subrange(0, 8 + (i + 1)));
        }
        out.push(f.payload[i]);
        i = i + 1;
    }
    proof {
        assert(out@ =~= body_bytes(*f));
    }
    let c = checksum_prefix(&out, out.len());
    proof {
        assert(out@.subrange(0, out@.len() as int) =~= out@);
        assert(c == frame_checksum(*f));
    }
    out.push((c % 256) as u8);
    out.push((c / 256) as u8);
    proof {
        assert(out@ =~= frame_bytes(*f));
    }
    out
}

/// Copies the byte range `[from, to)` of a vector.
pub fn copy_byte_range(v: &Vec<u8>, from: usize, to: usize) -> (r: Vec<u8>)
    requires
        from <= to <= v@.len(),
    ensures
        r@ == v@.subrange(from as int, to as int),
{
    let mut out: Vec<u8> = Vec::new();
    let mut i: usize = from;
    while i < to
        invariant
            from <= i <= to <= v@.len(),
            out@ == v@.subrange(from as int, i as int),
        decreases to - i,
    {
        proof {
            assert(out@.push(v@[i as int]) =~= v@.subrange(from as int, i + 1));
        }
        out.push(v[i]);
        i = i + 1;
    }
    out
}

/// Parses one frame out of a byte string, classifying every rejection:
/// a wrong start marker, a short or inconsistent length, or a bad checksum.
/// On success the returned frame re-serializes to exactly the input bytes.
pub fn parse_frame(bytes: &Vec<u8>) -> (r: Result<Frame, DecodeError>)
    ensures
        (r is Ok) <==> valid_frame_bytes(bytes@),
        (r matches Err(e) && e == DecodeError::InvalidStart) <==> starts_badly(bytes@),
        (r matches Err(e) && e == DecodeError::Incomplete) <==> length_bad(bytes@),
        (r matches Err(e) && e == DecodeError::BadChecksum) <==> checksum_bad(bytes@),
        r matches Ok(f) ==> f.wf() && f.message_id == le16_at(bytes@, 4) && f.src_device_id
            == bytes@[6] && f.dst_device_id == bytes@[7] && f.payload@ == bytes@.subrange(
            8,
            bytes@.len() - 2,
        ) && frame_bytes(f) == bytes@,
{
    let n = bytes.len();
    if n >= 2 && !(bytes[0] == START1 && bytes[1] == START2) {
        return Err(DecodeError::InvalidStart);
    }
    if n < 10 {
        return Err(DecodeError::Incomplete);
    }
    let plen: u16 = (bytes[2] as u16) + (bytes[3] as u16) * 256;
    if n != 10 + (plen as usize) {
        return Err(DecodeError::Incomplete);
    }
    let computed = checksum_prefix(bytes, n - 2);
    let stored: u16 = (bytes[n - 2] as u16) + (bytes[n - 1] as u16) * 256;
    if stored != computed {
        return Err(DecodeError::BadChecksum);
    }
    let message_id: u16 = (bytes[4] as u16) + (bytes[5] as u16) * 256;
    let payload = copy_byte_range(bytes, 8, n - 2);
    let f = Frame { message_id, src_device_id: bytes[6], dst_device_id: bytes[7], payload };
    proof {
        lemma_parsed_frame_bytes(f, bytes@);
    }
    Ok(f)
}

/// Two little-endian bytes encode back to the value they were read as.
proof fn lemma_le16_converse(b: Seq<u8>, i: int, v: u16)
    requires
        0 <= i && i + 1 < b.len(),
        le16_at(b, i) == v,
    ensures
        b[i] == (v % 256) as u8,
        b[i + 1] == (v / 256) as u8,
{
    assert(b[i] < 256 && b[i + 1] < 256);
    assert(b[i] + b[i + 1] * 256 == v);
    assert(b[i] == v % 256 && b[i + 1] == v / 256) by (nonlinear_arith)
        requires
            b[i] < 256 && b[i + 1] < 256 && b[i] + b[i + 1] * 256 == v,
    ;
}

/// A frame built from checksum-valid bytes re-serializes to those bytes.
proof fn lemma_parsed_frame_bytes(f: Frame, b: Seq<u8>)
    requires
        valid_frame_bytes(b),
        f.message_id == le16_at(b, 4),
        f.src_device_id == b[6],
        f.dst_device_id == b[7],
        f.payload@ == b.subrange(8, b.len() - 2),
    ensures
        f.wf(),
        frame_bytes(f) == b,
{
    let n = b.len() as int;
    assert(f.payload@.len() == n - 10);
    assert(le16_at(b, 2) == n - 10);
    lemma_le16_converse(b, 2, (n - 10) as u16);
    lemma_le16_converse(b, 4, f.message_id);
    assert(body_bytes(f) =~= b.subrange(0, n - 2));
    let c = sum_bytes(b.subrange(0, n - 2));
    assert(le16_at(b, n - 2) == c);
    lemma_le16_converse(b, n - 2, c);
    assert(frame_bytes(f) =~= b);
}

/// Round trip: the wire form of a well-formed frame parses back to it.
pub proof fn lemma_frame_round_trip(f: Frame)
    requires
        f.wf(),
    ensures
        valid_frame_bytes(frame_bytes(f)),
        le16_at(frame_bytes(f), 4) == f.message_id,
        frame_bytes(f)[6] == f.src_device_id,
        frame_bytes(f)[7] == f.dst_device_id,
        frame_bytes(f).subrange(8, frame_bytes(f).len() - 2) == f.payload@,
{
    let b = frame_bytes(f);
    let n = b.len() as int;
    assert(n == 10 + f.payload@.len());
    assert(b[0] == START1 && b[1] == START2);
    let plen = f.payload@.len() as u16;
    assert(b[2] == (plen % 256) as u8 && b[3] == (plen / 256) as u8);
    assert(le16_at(b, 2) == plen) by {
        assert(plen % 256 + (plen / 256) * 256 == plen) by (nonlinear_arith);
    }
    assert(!starts_badly(b));
    assert(!length_bad(b));
    assert(b.subrange(0, n - 2) =~= body_bytes(f));
    let c = frame_checksum(f);
    assert(b[n - 2] == (c % 256) as u8 && b[n - 1] == (c / 256) as u8);
    assert(le16_at(b, n - 2) == c) by {
        assert(c % 256 + (c / 256) * 256 == c) by (nonlinear_arith);
    }
    assert(!checksum_bad(b));
    assert(b[4] == (f.message_id % 256) as u8 && b[5] == (f.message_id / 256) as u8);
    assert(le16_at(b, 4) == f.message_id) by {
        assert(f.message_id % 256 + (f.message_id / 256) * 256 == f.message_id)
            by (nonlinear_arith);
    }
    assert(b.subrange(8, n - 2) =~= f.payload@);
}

} // verus!
