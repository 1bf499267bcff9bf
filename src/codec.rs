use vstd::prelude::*;
use vstd::utf8::encode_utf8;

use crate::data_type::DataType;

verus! {

/// Longest string payload, in bytes, that a packet carries.
pub const MAX_STRING_BYTES: usize = 30;

/// Largest value that a numeric packet carries.
pub const MAX_NUMERIC: u64 = 255;

/// `v` clamped to the range of one byte.
pub open spec fn clamp_byte(v: int) -> u8 {
    if v < 0 {
        0
    } else if v > 255 {
        255
    } else {
        v as u8
    }
}

/// `num / den` rounded to the nearest integer, halves rounded up.
pub open spec fn round_div(num: int, den: int) -> int {
    (2 * num + den) / (2 * den)
}

/// `v` saturated to the range of `u64`.
pub open spec fn saturate(v: int) -> u64 {
    if v > u64::MAX {
        u64::MAX
    } else {
        v as u64
    }
}

/// The packet `[Date, day, month]`.
pub open spec fn date_packet(day: u8, month: u8) -> Seq<u8> {
    seq![DataType::Date.spec_tag(), day, month]
}

/// The packet `[kind, v clamped to one byte]`.
pub open spec fn numeric_packet(kind: DataType, v: int) -> Seq<u8> {
    seq![kind.spec_tag(), clamp_byte(v)]
}

/// How many bytes of a string of `n` bytes a packet keeps.
pub open spec fn kept_len(n: nat) -> nat {
    if n > MAX_STRING_BYTES {
        MAX_STRING_BYTES as nat
    } else {
        n
    }
}

/// The packet `[kind, length, bytes...]` carrying at most the first
/// `MAX_STRING_BYTES` of `bytes`.
pub open spec fn string_packet(kind: DataType, bytes: Seq<u8>) -> Seq<u8> {
    let n = kept_len(bytes.len());
    seq![kind.spec_tag(), n as u8] + bytes.take(n as int)
}

/// The byte contents of a list of packets.
pub open spec fn packet_views(packets: Seq<Vec<u8>>) -> Seq<Seq<u8>> {
    packets.map_values(|p: Vec<u8>| p@)
}

/// An encoder change reported by the device: which encoder, and its new mode.
#[derive(Clone, Copy, Debug, PartialEq, Eq, Structural)]
pub struct EncoderEvent {
    pub index: u8,
    pub mode: u8,
}

/// The encoder event that a packet carries: `[EncoderMode, index, mode, ...]`.
pub open spec fn spec_encoder_event(packet: Seq<u8>) -> Option<EncoderEvent> {
    if packet.len() >= 3 && packet[0] == DataType::EncoderMode.spec_tag() {
        Some(EncoderEvent { index: packet[1], mode: packet[2] })
    } else {
        None
    }
}

/// Reads an encoder event out of an inbound packet. Packets of any other
/// tag, and packets too short to hold an index and a mode, give `None`.
pub fn decode_encoder_event(packet: &Vec<u8>) -> (r: Option<EncoderEvent>)
    ensures
        r == spec_encoder_event(packet@),
{
    if packet.len() >= 3 && packet[0] == DataType::EncoderMode.tag() {
        Some(EncoderEvent { index: packet[1], mode: packet[2] })
    } else {
        None
    }
}

/// A string packet carries the kind, then the count of bytes kept, which is
/// the byte length capped at `MAX_STRING_BYTES`, then exactly those first
/// bytes.
pub proof fn lemma_string_packet_layout(kind: DataType, bytes: Seq<u8>)
    ensures
        ({
            let p = string_packet(kind, bytes);
            let n = if bytes.len() > 30 { 30 } else { bytes.len() as int };
            &&& p.len() == 2 + n
            &&& p[0] == kind.spec_tag()
            &&& p[1] as int == n
            &&& p.subrange(2, p.len() as int) == bytes.subrange(0, n)
        }),
{
    let p = string_packet(kind, bytes);
    let n = if bytes.len() > 30 { 30 } else { bytes.len() as int };
    assert(p.subrange(2, p.len() as int) =~= bytes.subrange(0, n));
}

/// Encodes a date as `[Date, day, month]`.
pub fn encode_date(day: u8, month: u8) -> (r: Vec<u8>)
    ensures
        r@ == date_packet(day, month),
{
    let r = vec![DataType::Date.tag(), day, month];
    assert(r@ =~= date_packet(day, month));
    r
}

/// Encodes a numeric reading as `[kind, value]`, the value clamped to 255.
pub fn encode_numeric(kind: DataType, value: u64) -> (r: Vec<u8>)
    ensures
        r@ == numeric_packet(kind, value as int),
        r@.len() == 2,
        r@[1] as int == if value > 255 { 255 } else { value as int },
{
    let b: u8 = if value > MAX_NUMERIC {
        255
    } else {
        value as u8
    };
    let r = vec![kind.tag(), b];
    assert(r@ =~= numeric_packet(kind, value as int));
    r
}

/// Encodes a string as `[kind, length, bytes...]`: its UTF-8 bytes cut to at
/// most `MAX_STRING_BYTES`, preceded by the count kept.
pub fn encode_string(kind: DataType, s: &str) -> (r: Vec<u8>)
    ensures
        r@ == string_packet(kind, encode_utf8(s@)),
{
    let bytes = s.as_bytes();
    let n: usize = if bytes.len() > MAX_STRING_BYTES {
        MAX_STRING_BYTES
    } else {
        bytes.len()
    };
    let mut r: Vec<u8> = Vec::new();
    r.push(kind.tag());
    r.push(n as u8);
    let mut i: usize = 0;
    while i < n
        invariant
            n <= bytes@.len(),
            n == kept_len(encode_utf8(s@).len()),
            bytes@ == encode_utf8(s@),
            i <= n,
            r@ == seq![kind.spec_tag(), n as u8] + bytes@.take(i as int),
        decreases n - i,
    {
        r.push(bytes[i]);
        i = i + 1;
        assert(r@ =~= seq![kind.spec_tag(), n as u8] + bytes@.take(i as int));
    }
    r
}

/// `v` saturated to the range of `u64`.
pub fn saturate_u128(v: u128) -> (r: u64)
    ensures
        r == saturate(v as int),
{
    if v > u64::MAX as u128 {
        u64::MAX
    } else {
        v as u64
    }
}

/// `num / den` rounded to the nearest integer, halves rounded up.
pub fn rounded_ratio(num: u128, den: u128) -> (r: u128)
    requires
        den > 0,
        num < 0x4000_0000_0000_0000_0000_0000_0000_0000,
        den < 0x4000_0000_0000_0000_0000_0000_0000_0000,
    ensures
        r == round_div(num as int, den as int),
        2 * r * den <= 2 * num + den < 2 * (r + 1) * den,
{
    let r = (2 * num + den) / (2 * den);
    assert(2 * r * den <= 2 * num + den < 2 * (r + 1) * den) by (nonlinear_arith)
        requires
            r == (2 * num + den) / (2 * den),
            den > 0,
    ;
    r
}

/// `part` as a percentage of `whole`, rounded to the nearest integer; 0 when
/// `whole` is 0.
pub fn percent(part: u64, whole: u64) -> (r: u64)
    ensures
        whole == 0 ==> r == 0,
        whole > 0 ==> r == saturate(round_div(100 * part, whole as int)),
{
    if whole == 0 {
        0
    } else {
        let v = rounded_ratio(part as u128 * 100, whole as u128);
        saturate_u128(v)
    }
}

} // verus!
