//! Device identity: the stable 128-bit device id, the device kind, the
//! transport specification and the immutable device information record.
//!
//! The id renders as the canonical hyphenated lowercase hex form (8-4-4-4-12
//! digits); the rendering is verified character by character.

use vstd::prelude::*;

verus! {

/// Opaque 128-bit identifier, stable for the life of a session.
#[derive(Clone, Copy, Debug, PartialEq, Eq, Hash, Structural)]
pub struct DeviceId {
    pub value: u128,
}

/// The recognized families of attached sonar devices.
#[derive(Clone, Copy, Debug, PartialEq, Eq, Structural)]
pub enum DeviceKind {
    /// Single-beam echo-sounder producing a depth profile.
    Ping1D,
    /// Mechanically-scanning imaging sonar producing per-angle samples.
    Ping360,
    /// Unrecognized but protocol-compatible device.
    Common,
}

/// How a device is reached.
#[derive(Debug)]
pub enum TransportSpec {
    Serial { path: String, baud: u32 },
    Udp { addr: String, port: u16 },
    Tcp { addr: String, port: u16 },
    /// Placeholder that triggers discovery instead of naming a link.
    Auto,
}

/// Equality of transport specifications, by variant and fields.
pub open spec fn transport_eq(a: TransportSpec, b: TransportSpec) -> bool {
    match (a, b) {
        (TransportSpec::Serial { path: p1, baud: b1 }, TransportSpec::Serial { path: p2, baud: b2 }) => p1@
            == p2@ && b1 == b2,
        (TransportSpec::Udp { addr: a1, port: p1 }, TransportSpec::Udp { addr: a2, port: p2 }) => a1@
            == a2@ && p1 == p2,
        (TransportSpec::Tcp { addr: a1, port: p1 }, TransportSpec::Tcp { addr: a2, port: p2 }) => a1@
            == a2@ && p1 == p2,
        (TransportSpec::Auto, TransportSpec::Auto) => true,
        _ => false,
    }
}

/// Decides `transport_eq` on two transport specifications.
pub fn transports_equal(a: &TransportSpec, b: &TransportSpec) -> (r: bool)
    ensures
        r == transport_eq(*a, *b),
{
    match (a, b) {
        (TransportSpec::Serial { path: p1, baud: b1 }, TransportSpec::Serial { path: p2, baud: b2 }) => p1.eq(
            p2,
        ) && b1 == b2,
        (TransportSpec::Udp { addr: a1, port: p1 }, TransportSpec::Udp { addr: a2, port: p2 }) => a1.eq(
            a2,
        ) && p1 == p2,
        (TransportSpec::Tcp { addr: a1, port: p1 }, TransportSpec::Tcp { addr: a2, port: p2 }) => a1.eq(
            a2,
        ) && p1 == p2,
        (TransportSpec::Auto, TransportSpec::Auto) => true,
        _ => false,
    }
}

impl Clone for TransportSpec {
    /// A clone is spec-equal to the original.
    fn clone(&self) -> (r: Self)
        ensures
            r == *self,
    {
        match self {
            TransportSpec::Serial { path, baud } => TransportSpec::Serial {
                path: path.clone(),
                baud: *baud,
            },
            TransportSpec::Udp { addr, port } => TransportSpec::Udp {
                addr: addr.clone(),
                port: *port,
            },
            TransportSpec::Tcp { addr, port } => TransportSpec::Tcp {
                addr: addr.clone(),
                port: *port,
            },
            TransportSpec::Auto => TransportSpec::Auto,
        }
    }
}

/// Firmware version reported by the device at identification.
#[derive(Clone, Copy, Debug, PartialEq, Eq, Structural)]
pub struct FirmwareVersion {
    pub major: u16,
    pub minor: u16,
    pub patch: u16,
}

/// Immutable record of one attached device; fixed after session creation.
#[derive(Debug)]
pub struct DeviceInfo {
    pub id: DeviceId,
    pub kind: DeviceKind,
    pub transport: TransportSpec,
    pub firmware: FirmwareVersion,
    pub device_id_byte: u8,
}

impl Clone for DeviceInfo {
    /// A clone is spec-equal to the original.
    fn clone(&self) -> (r: Self)
        ensures
            r == *self,
    {
        DeviceInfo {
            id: self.id,
            kind: self.kind,
            transport: self.transport.clone(),
            firmware: self.firmware,
            device_id_byte: self.device_id_byte,
        }
    }
}

/// The lowercase hex character for one digit value below 16.
pub open spec fn hex_char_of(d: u8) -> char {
    if d == 0 {
        '0'
    } else if d == 1 {
        '1'
    } else if d == 2 {
        '2'
    } else if d == 3 {
        '3'
    } else if d == 4 {
        '4'
    } else if d == 5 {
        '5'
    } else if d == 6 {
        '6'
    } else if d == 7 {
        '7'
    } else if d == 8 {
        '8'
    } else if d == 9 {
        '9'
    } else if d == 10 {
        'a'
    } else if d == 11 {
        'b'
    } else if d == 12 {
        'c'
    } else if d == 13 {
        'd'
    } else if d == 14 {
        'e'
    } else {
        'f'
    }
}

/// Appends the hex character of a digit value to a string.
pub fn append_hex_char(s: &mut String, d: u8)
    requires
        d < 16,
    ensures
        final(s)@ == old(s)@ + seq![hex_char_of(d)],
{
    proof {
        reveal_strlit("0");
        reveal_strlit("1");
        reveal_strlit("2");
        reveal_strlit("3");
        reveal_strlit("4");
        reveal_strlit("5");
        reveal_strlit("6");
        reveal_strlit("7");
        reveal_strlit("8");
        reveal_strlit("9");
        reveal_strlit("a");
        reveal_strlit("b");
        reveal_strlit("c");
        reveal_strlit("d");
        reveal_strlit("e");
        reveal_strlit("f");
    }
    if d == 0 {
        s.append("0");
    } else if d == 1 {
        s.append("1");
    } else if d == 2 {
        s.append("2");
    } else if d == 3 {
        s.append("3");
    } else if d == 4 {
        s.append("4");
    } else if d == 5 {
        s.append("5");
    } else if d == 6 {
        s.append("6");
    } else if d == 7 {
        s.append("7");
    } else if d == 8 {
        s.append("8");
    } else if d == 9 {
        s.append("9");
    } else if d == 10 {
        s.append("a");
    } else if d == 11 {
        s.append("b");
    } else if d == 12 {
        s.append("c");
    } else if d == 13 {
        s.append("d");
    } else if d == 14 {
        s.append("e");
    } else {
        s.append("f");
    }
}

/// The `i`-th hex digit value of a 128-bit id, most significant first.
pub open spec fn id_nibble(v: u128, i: int) -> u128 {
    (v >> ((4 * (31 - i)) as u128)) & 0xf
}

/// Position of the digit that the `i`-th character of the hyphenated form
/// takes, skipping the four hyphen positions.
pub open spec fn hyphenated_digit_index(i: int) -> int {
    if i < 8 {
        i
    } else if i < 13 {
        i - 1
    } else if i < 18 {
        i - 2
    } else if i < 23 {
        i - 3
    } else {
        i - 4
    }
}

/// The canonical hyphenated lowercase hex rendering of a 128-bit id:
/// 8-4-4-4-12 digits with hyphens between the groups.
pub open spec fn device_id_chars(v: u128) -> Seq<char> {
    Seq::new(
        36,
        |i: int|
            if i == 8 || i == 13 || i == 18 || i == 23 {
                '-'
            } else {
                hex_char_of(id_nibble(v, hyphenated_digit_index(i)) as u8)
            },
    )
}

proof fn lemma_nibble_below_16(v: u128, sh: u128)
    ensures
        (v >> sh) & 0xf < 16,
{
    assert((v >> sh) & 0xf < 16) by (bit_vector);
}

/// Renders a device id in the canonical hyphenated lowercase hex form.
pub fn device_id_string(id: DeviceId) -> (r: String)
    ensures
        r@ == device_id_chars(id.value),
        r@.len() == 36,
{
    let v = id.value;
    let mut s = String::new();
    proof {
        reveal_strlit("-");
    }
    let mut i: usize = 0;
    while i < 36
        invariant
            i <= 36,
            s@ == device_id_chars(v).subrange(0, i as int),
        decreases 36 - i,
    {
        if i == 8 || i == 13 || i == 18 || i == 23 {
            s.append("-");
            proof {
                assert("-"@ == seq!['-']) by {
                    reveal_strlit("-");
                }
                assert(s@ =~= device_id_chars(v).subrange(0, i + 1));
            }
        } else {
            let di: usize = if i < 8 {
                i
            } else if i < 13 {
                i - 1
            } else if i < 18 {
                i - 2
            } else if i < 23 {
                i - 3
            } else {
                i - 4
            };
            let sh: u128 = 4 * (31 - di as u128);
            let d: u128 = (v >> sh) & 0xf;
            proof {
                lemma_nibble_below_16(v, sh);
                assert(d == id_nibble(v, hyphenated_digit_index(i as int)));
            }
            append_hex_char(&mut s, d as u8);
            proof {
                assert(hex_char_of(d as u8) == device_id_chars(v)[i as int]);
                assert(s@ =~= device_id_chars(v).subrange(0, i + 1));
            }
        }
        i = i + 1;
    }
    proof {
        assert(s@ =~= device_id_chars(v));
    }
    s
}

} // verus!
