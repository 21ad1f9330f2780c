use vstd::prelude::*;

verus! {

/// One decoded sample. Each field holds the IEEE-754 single-precision bit
/// pattern of the measured value, reconstructed big-endian from the wire;
/// turning the bits into a float is left to the unverified display side.
#[derive(Clone, Copy, Debug, PartialEq, Eq)]
pub struct Data {
    /// CO2 concentration in parts per million, as IEEE-754 single bits.
    pub co2_bits: u32,
    /// Temperature in degrees Celsius, as IEEE-754 single bits.
    pub temperature_bits: u32,
    /// Relative humidity in percent, as IEEE-754 single bits.
    pub humidity_bits: u32,
}

/// Big-endian reconstruction of a 16-bit word from two bytes.
pub open spec fn be_u16(b0: u8, b1: u8) -> u16 {
    ((b0 as int) * 0x100 + (b1 as int)) as u16
}

/// Big-endian reconstruction of a 32-bit word from four bytes.
pub open spec fn be_u32(b0: u8, b1: u8, b2: u8, b3: u8) -> u32 {
    ((b0 as int) * 0x100_0000 + (b1 as int) * 0x1_0000 + (b2 as int) * 0x100 + (b3 as int)) as u32
}

/// How a measurement response is laid out: the sensor inserts a checksum byte
/// after every two data bytes of the 18-byte response (at offsets 2, 5, 8, 11,
/// 14 and 17), so each field's four bytes are gathered from non-contiguous
/// offsets. The embedded per-pair checksum bytes are deliberately not
/// validated here: the transport's own acknowledgement already covers the
/// frame, per the sensor's interface contract.
pub open spec fn decode_measurement_spec(r: Seq<u8>) -> Data
    recommends
        r.len() == 18,
{
    Data {
        co2_bits: be_u32(r[0], r[1], r[3], r[4]),
        temperature_bits: be_u32(r[6], r[7], r[9], r[10]),
        humidity_bits: be_u32(r[12], r[13], r[15], r[16]),
    }
}

fn be_u32_exec(b0: u8, b1: u8, b2: u8, b3: u8) -> (w: u32)
    ensures
        w == be_u32(b0, b1, b2, b3),
{
    (b0 as u32) * 0x100_0000 + (b1 as u32) * 0x1_0000 + (b2 as u32) * 0x100 + (b3 as u32)
}

/// Reconstruct the three measured fields from an 18-byte measurement response.
pub fn decode_measurement(r: &[u8]) -> (d: Data)
    requires
        r@.len() == 18,
    ensures
        d == decode_measurement_spec(r@),
{
    Data {
        co2_bits: be_u32_exec(r[0], r[1], r[3], r[4]),
        temperature_bits: be_u32_exec(r[6], r[7], r[9], r[10]),
        humidity_bits: be_u32_exec(r[12], r[13], r[15], r[16]),
    }
}

} // verus!
