//! Typed sonar messages carried in frame payloads: the single-beam profile
//! and the imaging-sonar per-angle data, with verified little-endian payload
//! codecs and the synthesis of a normalized auto-scan record out of a
//! single-step reply.

use vstd::prelude::*;

use crate::codec::{copy_byte_range, le16, le16_at, Frame};

verus! {

/// Message id of the single-beam profile reply.
pub const PROFILE_ID: u16 = 1300;

/// Message id of the imaging-sonar single-step reply.
pub const DEVICE_DATA_ID: u16 = 2300;

/// Message id of the imaging-sonar auto-scan reply.
pub const AUTO_DEVICE_DATA_ID: u16 = 2301;

/// Message id of the single-beam continuous-start command.
pub const CONTINUOUS_START_ID: u16 = 1400;

/// Message id of the single-beam continuous-stop command.
pub const CONTINUOUS_STOP_ID: u16 = 1401;

/// Message id of the imaging-sonar transducer scan command.
pub const TRANSDUCER_ID: u16 = 2601;

/// Single-beam profile reply: ranging results plus the strength samples.
#[derive(Debug)]
pub struct Ping1DProfile {
    pub distance: u32,
    pub confidence: u16,
    pub transmit_duration: u16,
    pub ping_number: u32,
    pub scan_start: u32,
    pub scan_length: u32,
    pub gain_setting: u32,
    pub profile_data_length: u16,
    pub profile_data: Vec<u8>,
}

/// Imaging-sonar single-step reply: one angle worth of samples.
#[derive(Debug)]
pub struct Ping360DeviceData {
    pub mode: u8,
    pub gain_setting: u8,
    pub angle: u16,
    pub transmit_duration: u16,
    pub sample_period: u16,
    pub transmit_frequency: u16,
    pub number_of_samples: u16,
    pub data_length: u16,
    pub data: Vec<u8>,
}

/// Imaging-sonar auto-scan reply: one angle worth of samples plus the
/// scan-range annotations.
#[derive(Debug)]
pub struct Ping360AutoDeviceData {
    pub mode: u8,
    pub gain_setting: u8,
    pub angle: u16,
    pub transmit_duration: u16,
    pub sample_period: u16,
    pub transmit_frequency: u16,
    pub start_angle: u16,
    pub stop_angle: u16,
    pub num_steps: u8,
    pub delay: u8,
    pub number_of_samples: u16,
    pub data_length: u16,
    pub data: Vec<u8>,
}

/// Copies a byte vector, contents preserved exactly.
pub fn copy_of(v: &Vec<u8>) -> (r: Vec<u8>)
    ensures
        r@ == v@,
{
    let r = copy_byte_range(v, 0, v.len());
    proof {
        assert(r@ =~= v@);
    }
    r
}

/// Field-wise equality of profile records, the samples by contents.
pub open spec fn profile_eq(a: Ping1DProfile, b: Ping1DProfile) -> bool {
    &&& a.distance == b.distance
    &&& a.confidence == b.confidence
    &&& a.transmit_duration == b.transmit_duration
    &&& a.ping_number == b.ping_number
    &&& a.scan_start == b.scan_start
    &&& a.scan_length == b.scan_length
    &&& a.gain_setting == b.gain_setting
    &&& a.profile_data_length == b.profile_data_length
    &&& a.profile_data@ == b.profile_data@
}

/// Field-wise equality of single-step records, the samples by contents.
pub open spec fn device_data_eq(a: Ping360DeviceData, b: Ping360DeviceData) -> bool {
    &&& a.mode == b.mode
    &&& a.gain_setting == b.gain_setting
    &&& a.angle == b.angle
    &&& a.transmit_duration == b.transmit_duration
    &&& a.sample_period == b.sample_period
    &&& a.transmit_frequency == b.transmit_frequency
    &&& a.number_of_samples == b.number_of_samples
    &&& a.data_length == b.data_length
    &&& a.data@ == b.data@
}

/// Field-wise equality of auto-scan records, the samples by contents.
pub open spec fn auto_data_eq(a: Ping360AutoDeviceData, b: Ping360AutoDeviceData) -> bool {
    &&& a.mode == b.mode
    &&& a.gain_setting == b.gain_setting
    &&& a.angle == b.angle
    &&& a.transmit_duration == b.transmit_duration
    &&& a.sample_period == b.sample_period
    &&& a.transmit_frequency == b.transmit_frequency
    &&& a.start_angle == b.start_angle
    &&& a.stop_angle == b.stop_angle
    &&& a.num_steps == b.num_steps
    &&& a.delay == b.delay
    &&& a.number_of_samples == b.number_of_samples
    &&& a.data_length == b.data_length
    &&& a.data@ == b.data@
}

/// The auto-scan record `a` is the normalization of the single-step reply
/// `d`: samples and sample fields preserved exactly, the scan-range
/// annotations fixed to the full circle one step at a time, and the data
/// length taken from the sample count.
pub open spec fn is_synthesis_of(a: Ping360AutoDeviceData, d: Ping360DeviceData) -> bool {
    &&& a.mode == d.mode
    &&& a.gain_setting == d.gain_setting
    &&& a.angle == d.angle
    &&& a.transmit_duration == d.transmit_duration
    &&& a.sample_period == d.sample_period
    &&& a.transmit_frequency == d.transmit_frequency
    &&& a.start_angle == 0
    &&& a.stop_angle == 399
    &&& a.num_steps == 1
    &&& a.delay == 0
    &&& a.number_of_samples == d.number_of_samples
    &&& a.data_length == d.number_of_samples
    &&& a.data@ == d.data@
}

/// The four little-endian bytes of a 32-bit value.
pub open spec fn le32(v: u32) -> Seq<u8> {
    seq![(v % 256) as u8, (v / 256 % 256) as u8, (v / 65536 % 256) as u8, (v / 16777216) as u8]
}

/// The 32-bit value read from four little-endian bytes at `i`.
pub open spec fn le32_at(b: Seq<u8>, i: int) -> u32 {
    (b[i] + b[i + 1] * 256 + b[i + 2] * 65536 + b[i + 3] * 16777216) as u32
}

/// Reads a 16-bit little-endian value.
pub fn read_le16(b: &Vec<u8>, i: usize) -> (r: u16)
    requires
        i + 2 <= b@.len(),
    ensures
        r == le16_at(b@, i as int),
{
    proof {
        vstd::std_specs::vec::axiom_spec_len(b);
    }
    (b[i] as u16) + (b[i + 1] as u16) * 256
}

/// Reads a 32-bit little-endian value.
pub fn read_le32(b: &Vec<u8>, i: usize) -> (r: u32)
    requires
        i + 4 <= b@.len(),
    ensures
        r == le32_at(b@, i as int),
{
    proof {
        vstd::std_specs::vec::axiom_spec_len(b);
    }
    (b[i] as u32) + (b[i + 1] as u32) * 256 + (b[i + 2] as u32) * 65536 + (b[i + 3] as u32)
        * 16777216
}

/// Appends a 16-bit value in little-endian order.
pub fn write_le16(out: &mut Vec<u8>, v: u16)
    ensures
        final(out)@ == old(out)@ + le16(v),
{
    out.push((v % 256) as u8);
    out.push((v / 256) as u8);
    proof {
        assert(final(out)@ =~= old(out)@ + le16(v));
    }
}

/// Appends a 32-bit value in little-endian order.
pub fn write_le32(out: &mut Vec<u8>, v: u32)
    ensures
        final(out)@ == old(out)@ + le32(v),
{
    out.push((v % 256) as u8);
    out.push((v / 256 % 256) as u8);
    out.push((v / 65536 % 256) as u8);
    out.push((v / 16777216) as u8);
    proof {
        assert(final(out)@ =~= old(out)@ + le32(v));
    }
}

/// The payload byte layout of a profile reply.
pub open spec fn profile_payload_bytes(p: Ping1DProfile) -> Seq<u8> {
    le32(p.distance) + le16(p.confidence) + le16(p.transmit_duration) + le32(p.ping_number) + le32(
        p.scan_start,
    ) + le32(p.scan_length) + le32(p.gain_setting) + le16(p.profile_data_length) + p.profile_data@
}

/// The payload byte layout of a single-step reply.
pub open spec fn device_data_payload_bytes(d: Ping360DeviceData) -> Seq<u8> {
    seq![d.mode, d.gain_setting] + le16(d.angle) + le16(d.transmit_duration) + le16(d.sample_period)
        + le16(d.transmit_frequency) + le16(d.number_of_samples) + le16(d.data_length) + d.data@
}

/// The payload byte layout of an auto-scan reply.
pub open spec fn auto_device_data_payload_bytes(d: Ping360AutoDeviceData) -> Seq<u8> {
    seq![d.mode, d.gain_setting] + le16(d.angle) + le16(d.transmit_duration) + le16(d.sample_period)
        + le16(d.transmit_frequency) + le16(d.start_angle) + le16(d.stop_angle) + seq![
        d.num_steps,
        d.delay,
    ] + le16(d.number_of_samples) + le16(d.data_length) + d.data@
}

/// A value below `base * 256` splits uniquely into `lo + base * hi`.
proof fn lemma_split_div_mod(v: int, lo: int, hi: int, base: int)
    requires
        base > 0,
        0 <= lo < base,
        0 <= hi,
        v == lo + base * hi,
    ensures
        lo == v % base,
        hi == v / base,
{
    assert(lo == v % base && hi == v / base) by (nonlinear_arith)
        requires
            base > 0 && 0 <= lo < base && 0 <= hi && v == lo + base * hi,
    ;
}

/// Four little-endian bytes encode back to the value they were read as.
proof fn lemma_le32_converse(b: Seq<u8>, i: int, v: u32)
    requires
        0 <= i && i + 3 < b.len(),
        le32_at(b, i) == v,
    ensures
        b[i] == (v % 256) as u8,
        b[i + 1] == (v / 256 % 256) as u8,
        b[i + 2] == (v / 65536 % 256) as u8,
        b[i + 3] == (v / 16777216) as u8,
{
    let lo16 = b[i] + b[i + 1] * 256;
    let hi16 = b[i + 2] + b[i + 3] * 256;
    assert(v == lo16 + 65536 * hi16);
    lemma_split_div_mod(v as int, lo16 as int, hi16 as int, 65536);
    lemma_split_div_mod(lo16 as int, b[i] as int, b[i + 1] as int, 256);
    lemma_split_div_mod(hi16 as int, b[i + 2] as int, b[i + 3] as int, 256);
    assert(v / 65536 / 256 == v / 16777216) by (nonlinear_arith);
    assert(v / 256 % 256 == v % 65536 / 256) by (nonlinear_arith);
}

/// Two little-endian bytes encode back to the value they were read as.
proof fn lemma_le16_converse_pub(b: Seq<u8>, i: int, v: u16)
    requires
        0 <= i && i + 1 < b.len(),
        le16_at(b, i) == v,
    ensures
        b[i] == (v % 256) as u8,
        b[i + 1] == (v / 256) as u8,
{
    lemma_split_div_mod(v as int, b[i] as int, b[i + 1] as int, 256);
}

/// Decodes a profile payload. Succeeds exactly when the fixed fields fit;
/// the strength samples are whatever bytes follow them. The decoded record
/// re-encodes to exactly the input payload.
pub fn decode_profile(b: &Vec<u8>) -> (r: Option<Ping1DProfile>)
    ensures
        (r is Some) <==> b@.len() >= 26,
        r matches Some(p) ==> p.distance == le32_at(b@, 0) && p.confidence == le16_at(b@, 4)
            && p.transmit_duration == le16_at(b@, 6) && p.ping_number == le32_at(b@, 8)
            && p.scan_start == le32_at(b@, 12) && p.scan_length == le32_at(b@, 16)
            && p.gain_setting == le32_at(b@, 20) && p.profile_data_length == le16_at(b@, 24)
            && p.profile_data@ == b@.subrange(26, b@.len() as int) && profile_payload_bytes(p)
            == b@,
{
    if b.len() < 26 {
        return None;
    }
    let p = Ping1DProfile {
        distance: read_le32(b, 0),
        confidence: read_le16(b, 4),
        transmit_duration: read_le16(b, 6),
        ping_number: read_le32(b, 8),
        scan_start: read_le32(b, 12),
        scan_length: read_le32(b, 16),
        gain_setting: read_le32(b, 20),
        profile_data_length: read_le16(b, 24),
        profile_data: copy_byte_range(b, 26, b.len()),
    };
    proof {
        lemma_le32_converse(b@, 0, p.distance);
        lemma_le16_converse_pub(b@, 4, p.confidence);
        lemma_le16_converse_pub(b@, 6, p.transmit_duration);
        lemma_le32_converse(b@, 8, p.ping_number);
        lemma_le32_converse(b@, 12, p.scan_start);
        lemma_le32_converse(b@, 16, p.scan_length);
        lemma_le32_converse(b@, 20, p.gain_setting);
        lemma_le16_converse_pub(b@, 24, p.profile_data_length);
        assert(profile_payload_bytes(p) =~= b@);
    }
    Some(p)
}

/// Encodes a profile record into its payload byte layout.
pub fn encode_profile(p: &Ping1DProfile) -> (r: Vec<u8>)
    ensures
        r@ == profile_payload_bytes(*p),
{
    let mut out: Vec<u8> = Vec::new();
    write_le32(&mut out, p.distance);
    write_le16(&mut out, p.confidence);
    write_le16(&mut out, p.transmit_duration);
    write_le32(&mut out, p.ping_number);
    write_le32(&mut out, p.scan_start);
    write_le32(&mut out, p.scan_length);
    write_le32(&mut out, p.gain_setting);
    write_le16(&mut out, p.profile_data_length);
    let mut i: usize = 0;
    while i < p.profile_data.len()
        invariant
            i <= p.profile_data@.len(),
            out@ == profile_payload_bytes(*p).subrange(0, 26 + i as int),
            profile_payload_bytes(*p).len() == 26 + p.profile_data@.len(),
        decreases p.profile_data@.len() - i,
    {
        proof {
            assert(profile_payload_bytes(*p)[26 + i as int] == p.profile_data@[i as int]);
            assert(out@.push(p.profile_data@[i as int]) =~= profile_payload_bytes(*p).subrange(
                0,
                26 + (i + 1),
            ));
        }
        out.push(p.profile_data[i]);
        i = i + 1;
    }
    proof {
        assert(out@ =~= profile_payload_bytes(*p));
    }
    out
}

/// Decodes a single-step imaging reply. Succeeds exactly when the fixed
/// fields fit; the decoded record re-encodes to exactly the input payload.
pub fn decode_device_data(b: &Vec<u8>) -> (r: Option<Ping360DeviceData>)
    ensures
        (r is Some) <==> b@.len() >= 14,
        r matches Some(d) ==> d.mode == b@[0] && d.gain_setting == b@[1] && d.angle == le16_at(
            b@,
            2,
        ) && d.transmit_duration == le16_at(b@, 4) && d.sample_period == le16_at(b@, 6)
            && d.transmit_frequency == le16_at(b@, 8) && d.number_of_samples == le16_at(b@, 10)
            && d.data_length == le16_at(b@, 12) && d.data@ == b@.subrange(14, b@.len() as int)
            && device_data_payload_bytes(d) == b@,
{
    if b.len() < 14 {
        return None;
    }
    let d = Ping360DeviceData {
        mode: b[0],
        gain_setting: b[1],
        angle: read_le16(b, 2),
        transmit_duration: read_le16(b, 4),
        sample_period: read_le16(b, 6),
        transmit_frequency: read_le16(b, 8),
        number_of_samples: read_le16(b, 10),
        data_length: read_le16(b, 12),
        data: copy_byte_range(b, 14, b.len()),
    };
    proof {
        lemma_le16_converse_pub(b@, 2, d.angle);
        lemma_le16_converse_pub(b@, 4, d.transmit_duration);
        lemma_le16_converse_pub(b@, 6, d.sample_period);
        lemma_le16_converse_pub(b@, 8, d.transmit_frequency);
        lemma_le16_converse_pub(b@, 10, d.number_of_samples);
        lemma_le16_converse_pub(b@, 12, d.data_length);
        assert(device_data_payload_bytes(d) =~= b@);
    }
    Some(d)
}

/// Decodes an auto-scan imaging reply. Succeeds exactly when the fixed
/// fields fit; the decoded record re-encodes to exactly the input payload.
pub fn decode_auto_device_data(b: &Vec<u8>) -> (r: Option<Ping360AutoDeviceData>)
    ensures
        (r is Some) <==> b@.len() >= 20,
        r matches Some(d) ==> d.mode == b@[0] && d.gain_setting == b@[1] && d.angle == le16_at(
            b@,
            2,
        ) && d.transmit_duration == le16_at(b@, 4) && d.sample_period == le16_at(b@, 6)
            && d.transmit_frequency == le16_at(b@, 8) && d.start_angle == le16_at(b@, 10)
            && d.stop_angle == le16_at(b@, 12) && d.num_steps == b@[14] && d.delay == b@[15]
            && d.number_of_samples == le16_at(b@, 16) && d.data_length == le16_at(b@, 18)
            && d.data@ == b@.subrange(20, b@.len() as int) && auto_device_data_payload_bytes(d)
            == b@,
{
    if b.len() < 20 {
        return None;
    }
    let d = Ping360AutoDeviceData {
        mode: b[0],
        gain_setting: b[1],
        angle: read_le16(b, 2),
        transmit_duration: read_le16(b, 4),
        sample_period: read_le16(b, 6),
        transmit_frequency: read_le16(b, 8),
        start_angle: read_le16(b, 10),
        stop_angle: read_le16(b, 12),
        num_steps: b[14],
        delay: b[15],
        number_of_samples: read_le16(b, 16),
        data_length: read_le16(b, 18),
        data: copy_byte_range(b, 20, b.len()),
    };
    proof {
        lemma_le16_converse_pub(b@, 2, d.angle);
        lemma_le16_converse_pub(b@, 4, d.transmit_duration);
        lemma_le16_converse_pub(b@, 6, d.sample_period);
        lemma_le16_converse_pub(b@, 8, d.transmit_frequency);
        lemma_le16_converse_pub(b@, 10, d.start_angle);
        lemma_le16_converse_pub(b@, 12, d.stop_angle);
        lemma_le16_converse_pub(b@, 16, d.number_of_samples);
        lemma_le16_converse_pub(b@, 18, d.data_length);
        assert(auto_device_data_payload_bytes(d) =~= b@);
    }
    Some(d)
}

/// Encodes an auto-scan record into its payload byte layout.
pub fn encode_auto_device_data(d: &Ping360AutoDeviceData) -> (r: Vec<u8>)
    ensures
        r@ == auto_device_data_payload_bytes(*d),
{
    let mut out: Vec<u8> = Vec::new();
    out.push(d.mode);
    out.push(d.gain_setting);
    write_le16(&mut out, d.angle);
    write_le16(&mut out, d.transmit_duration);
    write_le16(&mut out, d.sample_period);
    write_le16(&mut out, d.transmit_frequency);
    write_le16(&mut out, d.start_angle);
    write_le16(&mut out, d.stop_angle);
    out.push(d.num_steps);
    out.push(d.delay);
    write_le16(&mut out, d.number_of_samples);
    write_le16(&mut out, d.data_length);
    let mut i: usize = 0;
    while i < d.data.len()
        invariant
            i <= d.data@.len(),
            out@ == auto_device_data_payload_bytes(*d).subrange(0, 20 + i as int),
            auto_device_data_payload_bytes(*d).len() == 20 + d.data@.len(),
        decreases d.data@.len() - i,
    {
        proof {
            assert(auto_device_data_payload_bytes(*d)[20 + i as int] == d.data@[i as int]);
            assert(out@.push(d.data@[i as int]) =~= auto_device_data_payload_bytes(*d).subrange(
                0,
                20 + (i + 1),
            ));
        }
        out.push(d.data[i]);
        i = i + 1;
    }
    proof {
        assert(out@ =~= auto_device_data_payload_bytes(*d));
    }
    out
}

/// The acoustic settings one transducer scan command carries.
#[derive(Clone, Copy, Debug, PartialEq, Eq, Structural)]
pub struct TransducerSettings {
    pub mode: u8,
    pub gain_setting: u8,
    pub transmit_duration: u16,
    pub sample_period: u16,
    pub transmit_frequency: u16,
    pub number_of_samples: u16,
}

/// The payload byte layout of a transducer scan command at one angle, with
/// the transmit flag set and the reserved byte clear.
pub open spec fn transducer_payload_bytes(s: TransducerSettings, angle: u16) -> Seq<u8> {
    seq![s.mode, s.gain_setting] + le16(angle) + le16(s.transmit_duration) + le16(s.sample_period)
        + le16(s.transmit_frequency) + le16(s.number_of_samples) + seq![1u8, 0u8]
}

/// Builds the transducer scan command the continuous-mode driver issues at
/// one angle of the sector.
pub fn transducer_command(s: &TransducerSettings, angle: u16) -> (r: Frame)
    ensures
        r.message_id == TRANSDUCER_ID,
        r.payload@ == transducer_payload_bytes(*s, angle),
        r.wf(),
{
    let mut payload: Vec<u8> = Vec::new();
    payload.push(s.mode);
    payload.push(s.gain_setting);
    write_le16(&mut payload, angle);
    write_le16(&mut payload, s.transmit_duration);
    write_le16(&mut payload, s.sample_period);
    write_le16(&mut payload, s.transmit_frequency);
    write_le16(&mut payload, s.number_of_samples);
    payload.push(1);
    payload.push(0);
    proof {
        assert(payload@ =~= transducer_payload_bytes(*s, angle));
    }
    Frame { message_id: TRANSDUCER_ID, src_device_id: 0, dst_device_id: 0, payload }
}

/// Builds the continuous-start command that asks a single-beam device to
/// stream profile replies on its own.
pub fn continuous_start_command() -> (r: Frame)
    ensures
        r.message_id == CONTINUOUS_START_ID,
        r.payload@ == le16(PROFILE_ID),
        r.wf(),
{
    let mut payload: Vec<u8> = Vec::new();
    write_le16(&mut payload, PROFILE_ID);
    proof {
        assert(payload@ =~= le16(PROFILE_ID));
    }
    Frame { message_id: CONTINUOUS_START_ID, src_device_id: 0, dst_device_id: 0, payload }
}

/// Builds the continuous-stop command that ends the autonomous stream.
pub fn continuous_stop_command() -> (r: Frame)
    ensures
        r.message_id == CONTINUOUS_STOP_ID,
        r.payload@ == le16(PROFILE_ID),
        r.wf(),
{
    let mut payload: Vec<u8> = Vec::new();
    write_le16(&mut payload, PROFILE_ID);
    proof {
        assert(payload@ =~= le16(PROFILE_ID));
    }
    Frame { message_id: CONTINUOUS_STOP_ID, src_device_id: 0, dst_device_id: 0, payload }
}

/// A frame, seen as one of the messages the recording worker cares about.
#[derive(Clone, Debug)]
pub enum ParsedMessage {
    Profile(Ping1DProfile),
    DeviceData(Ping360DeviceData),
    AutoDeviceData(Ping360AutoDeviceData),
    /// Any other (or undecodable) message, remembered by id only.
    Other(u16),
}

/// Classifies a frame by message id and decodes its payload where the id is
/// one the recording worker logs; anything else, including a payload too
/// short for its id, is `Other`.
pub fn classify_frame(f: &Frame) -> (r: ParsedMessage)
    ensures
        (r matches ParsedMessage::Profile(p)) <==> (f.message_id == PROFILE_ID && f.payload@.len()
            >= 26),
        (r matches ParsedMessage::DeviceData(d)) <==> (f.message_id == DEVICE_DATA_ID
            && f.payload@.len() >= 14),
        (r matches ParsedMessage::AutoDeviceData(d)) <==> (f.message_id == AUTO_DEVICE_DATA_ID
            && f.payload@.len() >= 20),
        r matches ParsedMessage::Profile(p) ==> profile_payload_bytes(p) == f.payload@,
        r matches ParsedMessage::DeviceData(d) ==> device_data_payload_bytes(d) == f.payload@,
        r matches ParsedMessage::AutoDeviceData(d) ==> auto_device_data_payload_bytes(d)
            == f.payload@,
        r matches ParsedMessage::Other(id) ==> id == f.message_id,
{
    if f.message_id == PROFILE_ID {
        match decode_profile(&f.payload) {
            Some(p) => ParsedMessage::Profile(p),
            None => ParsedMessage::Other(f.message_id),
        }
    } else if f.message_id == DEVICE_DATA_ID {
        match decode_device_data(&f.payload) {
            Some(d) => ParsedMessage::DeviceData(d),
            None => ParsedMessage::Other(f.message_id),
        }
    } else if f.message_id == AUTO_DEVICE_DATA_ID {
        match decode_auto_device_data(&f.payload) {
            Some(d) => ParsedMessage::AutoDeviceData(d),
            None => ParsedMessage::Other(f.message_id),
        }
    } else {
        ParsedMessage::Other(f.message_id)
    }
}

/// Synthesizes a normalized auto-scan record out of a single-step reply:
/// the sample fields are copied unchanged and the scan-range annotations
/// are fixed to the full circle scanned one step at a time.
pub fn synthesize_auto_device_data(d: &Ping360DeviceData) -> (r: Ping360AutoDeviceData)
    ensures
        is_synthesis_of(r, *d),
{
    Ping360AutoDeviceData {
        mode: d.mode,
        gain_setting: d.gain_setting,
        angle: d.angle,
        transmit_duration: d.transmit_duration,
        sample_period: d.sample_period,
        transmit_frequency: d.transmit_frequency,
        start_angle: 0,
        stop_angle: 399,
        num_steps: 1,
        delay: 0,
        number_of_samples: d.number_of_samples,
        data_length: d.number_of_samples,
        data: copy_of(&d.data),
    }
}

impl Clone for Ping1DProfile {
    /// A clone carries the same fields and the same sample contents.
    fn clone(&self) -> (r: Self)
        ensures
            profile_eq(r, *self),
    {
        Ping1DProfile {
            distance: self.distance,
            confidence: self.confidence,
            transmit_duration: self.transmit_duration,
            ping_number: self.ping_number,
            scan_start: self.scan_start,
            scan_length: self.scan_length,
            gain_setting: self.gain_setting,
            profile_data_length: self.profile_data_length,
            profile_data: copy_of(&self.profile_data),
        }
    }
}

impl Clone for Ping360DeviceData {
    /// A clone carries the same fields and the same sample contents.
    fn clone(&self) -> (r: Self)
        ensures
            device_data_eq(r, *self),
    {
        Ping360DeviceData {
            mode: self.mode,
            gain_setting: self.gain_setting,
            angle: self.angle,
            transmit_duration: self.transmit_duration,
            sample_period: self.sample_period,
            transmit_frequency: self.transmit_frequency,
            number_of_samples: self.number_of_samples,
            data_length: self.data_length,
            data: copy_of(&self.data),
        }
    }
}

impl Clone for Ping360AutoDeviceData {
    /// A clone carries the same fields and the same sample contents.
    fn clone(&self) -> (r: Self)
        ensures
            auto_data_eq(r, *self),
    {
        Ping360AutoDeviceData {
            mode: self.mode,
            gain_setting: self.gain_setting,
            angle: self.angle,
            transmit_duration: self.transmit_duration,
            sample_period: self.sample_period,
            transmit_frequency: self.transmit_frequency,
            start_angle: self.start_angle,
            stop_angle: self.stop_angle,
            num_steps: self.num_steps,
            delay: self.delay,
            number_of_samples: self.number_of_samples,
            data_length: self.data_length,
            data: copy_of(&self.data),
        }
    }
}

} // verus!
