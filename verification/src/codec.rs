//! Bit-exact decoding of the 12-byte sensor payload.
//!
//! Payload layout (little-endian multi-byte integers):
//!
//! | bytes | field                                                        |
//! |-------|--------------------------------------------------------------|
//! | 0     | temperature: bit 7 = sign, bits 0..=6 = whole degrees        |
//! | 1     | shared fractional tenths for temperature and humidity        |
//! | 2..=5 | air pressure, signed 32-bit little-endian                    |
//! | 6     | humidity whole percent                                       |
//! | 7     | reserved, ignored by the decoding                            |
//! | 8..=11| gas, signed 32-bit little-endian                             |

use vstd::prelude::*;

use crate::reading::Readings;
use crate::reading::SensorError;

verus! {

/// Number of bytes in one complete sensor payload.
pub const PAYLOAD_LEN: usize = 12;

/// The 32-bit word held little-endian in four bytes.
pub open spec fn spec_le_u32(b0: u8, b1: u8, b2: u8, b3: u8) -> u32 {
    (b0 as u32) | ((b1 as u32) << 8) | ((b2 as u32) << 16) | ((b3 as u32) << 24)
}

/// Two's-complement reading of a 32-bit word.
pub open spec fn spec_i32_of_u32(w: u32) -> int {
    if w < 0x8000_0000 {
        w as int
    } else {
        w - 0x1_0000_0000
    }
}

/// The signed 32-bit value held little-endian in four bytes; `b0` is the
/// least significant byte.
pub open spec fn spec_decode_i32(b0: u8, b1: u8, b2: u8, b3: u8) -> int {
    spec_i32_of_u32(spec_le_u32(b0, b1, b2, b3))
}

/// The 32-bit word whose two's-complement reading is `v`.
pub open spec fn spec_u32_of_i32(v: i32) -> u32 {
    if v >= 0 {
        v as u32
    } else {
        (v + 0x1_0000_0000) as u32
    }
}

/// The four little-endian bytes of a signed 32-bit value, least significant
/// first.
pub open spec fn spec_encode_i32(v: i32) -> (u8, u8, u8, u8) {
    let w = spec_u32_of_i32(v);
    (
        (w & 0xff) as u8,
        ((w >> 8) & 0xff) as u8,
        ((w >> 16) & 0xff) as u8,
        ((w >> 24) & 0xff) as u8,
    )
}

/// Temperature of a payload in tenths of a degree: bit 7 of byte 0 is the
/// sign, bits 0..=6 of byte 0 are whole degrees, and byte 1 adds fractional
/// tenths to the magnitude before the sign is applied.
pub open spec fn spec_temperature_tenths(b0: u8, b1: u8) -> int {
    if b0 & 0x80 == 0 {
        (b0 & 0x7f) * 10 + b1
    } else {
        -((b0 & 0x7f) * 10 + b1)
    }
}

/// Humidity of a payload in tenths of a percent: byte 6 holds whole percent
/// and byte 1 adds the same fractional tenths that the temperature uses.
pub open spec fn spec_humidity_tenths(b1: u8, b6: u8) -> int {
    b6 * 10 + b1
}

/// The reading that a complete 12-byte payload denotes. Byte 7 is reserved
/// and takes no part in the decoding.
pub open spec fn spec_decode_readings(s: Seq<u8>) -> Readings {
    Readings {
        temperature_tenths: spec_temperature_tenths(s[0], s[1]) as i32,
        humidity_tenths: spec_humidity_tenths(s[1], s[6]) as u32,
        air_pressure: spec_decode_i32(s[2], s[3], s[4], s[5]) as i32,
        gas: spec_decode_i32(s[8], s[9], s[10], s[11]) as i32,
    }
}

/// Decode four little-endian bytes as a signed 32-bit integer; `b0` is the
/// least significant byte and bit 7 of `b3` decides the sign.
pub fn decode_i32(b0: u8, b1: u8, b2: u8, b3: u8) -> (r: i32)
    ensures
        r as int == spec_decode_i32(b0, b1, b2, b3),
{
    let w: u32 = (b0 as u32) | ((b1 as u32) << 8) | ((b2 as u32) << 16) | ((b3 as u32) << 24);
    if w < 0x8000_0000 {
        w as i32
    } else {
        ((w as i64) - 0x1_0000_0000i64) as i32
    }
}

/// Encode a signed 32-bit integer into its four little-endian bytes, least
/// significant first. Decoding the result gives `v` back.
pub fn encode_i32(v: i32) -> (r: (u8, u8, u8, u8))
    ensures
        r == spec_encode_i32(v),
        spec_decode_i32(r.0, r.1, r.2, r.3) == v as int,
{
    let w: u32 = if v >= 0 {
        v as u32
    } else {
        ((v as i64) + 0x1_0000_0000i64) as u32
    };
    let b0: u8 = (w & 0xff) as u8;
    let b1: u8 = ((w >> 8) & 0xff) as u8;
    let b2: u8 = ((w >> 16) & 0xff) as u8;
    let b3: u8 = ((w >> 24) & 0xff) as u8;
    proof {
        lemma_le_u32_of_bytes(w);
    }
    (b0, b1, b2, b3)
}

/// Splitting a 32-bit word into its four bytes and recombining them
/// little-endian gives the word back.
proof fn lemma_le_u32_of_bytes(w: u32)
    ensures
        spec_le_u32(
            (w & 0xff) as u8,
            ((w >> 8) & 0xff) as u8,
            ((w >> 16) & 0xff) as u8,
            ((w >> 24) & 0xff) as u8,
        ) == w,
{
    assert(spec_le_u32(
        (w & 0xff) as u8,
        ((w >> 8) & 0xff) as u8,
        ((w >> 16) & 0xff) as u8,
        ((w >> 24) & 0xff) as u8,
    ) == w) by (bit_vector);
}

/// Decode a complete 12-byte payload into a reading.
pub fn decode_readings(data: &Vec<u8>) -> (r: Readings)
    requires
        data@.len() == PAYLOAD_LEN,
    ensures
        r == spec_decode_readings(data@),
        r.wf(),
{
    let b0: u8 = data[0];
    let b1: u8 = data[1];
    let b6: u8 = data[6];
    proof {
        assert(b0 & 0x7f <= 0x7f) by (bit_vector);
    }
    let magnitude: u32 = ((b0 & 0x7f) as u32) * 10 + (b1 as u32);
    let temperature_tenths: i32 = if b0 & 0x80 != 0 {
        -(magnitude as i32)
    } else {
        magnitude as i32
    };
    let humidity_tenths: u32 = (b6 as u32) * 10 + (b1 as u32);
    let air_pressure: i32 = decode_i32(data[2], data[3], data[4], data[5]);
    let gas: i32 = decode_i32(data[8], data[9], data[10], data[11]);
    Readings { temperature_tenths, humidity_tenths, air_pressure, gas }
}

/// Decode the bytes that a block read returned: exactly 12 bytes produce a
/// reading, anything else is a failed bus read. A partial payload never
/// produces a reading.
pub fn decode_payload(data: &Vec<u8>) -> (r: Result<Readings, SensorError>)
    ensures
        data@.len() == PAYLOAD_LEN ==> r == Ok::<Readings, SensorError>(
            spec_decode_readings(data@),
        ),
        data@.len() != PAYLOAD_LEN ==> r == Err::<Readings, SensorError>(
            SensorError::BusReadError,
        ),
{
    if data.len() == PAYLOAD_LEN {
        Ok(decode_readings(data))
    } else {
        Err(SensorError::BusReadError)
    }
}

/// Law: where the sign bit of byte 0 is clear the decoded temperature is
/// non-negative; where it is set, the decoded temperature is exactly the
/// negated unsigned decode of magnitude and fraction.
pub proof fn lemma_temperature_sign(b0: u8, b1: u8)
    ensures
        b0 & 0x80 == 0 ==> spec_temperature_tenths(b0, b1) >= 0,
        b0 & 0x80 != 0 ==> spec_temperature_tenths(b0, b1) == -((b0 & 0x7f) * 10 + b1),
{
}

/// Law: decoding is a pure function of the payload bytes; equal buffers
/// always yield equal readings, with no hidden state.
pub proof fn lemma_decode_deterministic(a: Seq<u8>, b: Seq<u8>)
    requires
        a == b,
    ensures
        spec_decode_readings(a) == spec_decode_readings(b),
{
}

/// Law: byte 0 never influences humidity: the sign bit affects only the
/// temperature.
pub proof fn lemma_sign_bit_spares_humidity(s: Seq<u8>, b: u8)
    requires
        s.len() == PAYLOAD_LEN,
    ensures
        spec_decode_readings(s.update(0, b)).humidity_tenths
            == spec_decode_readings(s).humidity_tenths,
{
}

/// Law: packing a signed 32-bit value into four little-endian bytes and
/// decoding them again yields the original value, for every value.
pub proof fn lemma_decode_i32_round_trip(v: i32)
    ensures
        ({
            let b = spec_encode_i32(v);
            spec_decode_i32(b.0, b.1, b.2, b.3) == v as int
        }),
{
    let w = spec_u32_of_i32(v);
    lemma_le_u32_of_bytes(w);
}

} // verus!
