//! Decoding of one raw report into a tagged reading.

use vstd::prelude::*;

verus! {

/// Vendor identifier of the monitor on the bus.
pub const VENDOR_ID: u16 = 0x04d9;

/// Product identifier of the monitor on the bus.
pub const PRODUCT_ID: u16 = 0xa052;

/// Tag of a report that carries the CO2 concentration.
pub const CO2_ADDRESS: u8 = 0x50;

/// Tag of a report that carries the temperature.
pub const TEMPERATURE_ADDRESS: u8 = 0x42;

/// Tag of a report that carries the relative humidity.
pub const HUMIDITY_ADDRESS: u8 = 0x41;

/// What one report says, after unit conversion.
#[derive(Clone, Copy, Debug, PartialEq, Eq, Structural)]
pub enum Reading {
    /// CO2 concentration in parts per million.
    Co2(u16),
    /// Temperature in hundredths of a degree Celsius.
    Temperature(i32),
    /// Relative humidity in hundredths of a percent.
    Humidity(u16),
    /// A report with a tag that this device family does not define.
    Ignored,
}

/// The big-endian 16-bit number formed by two bytes.
pub open spec fn raw_value(hi: u8, lo: u8) -> int {
    hi as int * 256 + lo as int
}

/// `raw / 16 - 273.15` degrees, in hundredths of a degree, rounded to the
/// nearest hundredth; a value exactly halfway goes to the higher one.
pub open spec fn centi_celsius(raw: int) -> int {
    (100 * raw + 8) / 16 - 27315
}

/// Whether `tag` is one of the three tags that carry a measurement.
pub open spec fn is_known_tag(tag: u8) -> bool {
    tag == CO2_ADDRESS || tag == TEMPERATURE_ADDRESS || tag == HUMIDITY_ADDRESS
}

/// The reading that a report of at least three bytes stands for.
pub open spec fn decoded(report: Seq<u8>) -> Reading {
    let raw = raw_value(report[1], report[2]);
    if report[0] == CO2_ADDRESS {
        Reading::Co2(raw as u16)
    } else if report[0] == TEMPERATURE_ADDRESS {
        Reading::Temperature(centi_celsius(raw) as i32)
    } else if report[0] == HUMIDITY_ADDRESS {
        Reading::Humidity(raw as u16)
    } else {
        Reading::Ignored
    }
}

/// The rounded temperature lies within half a hundredth of the exact one:
/// with both sides scaled by 16, the exact value is `100 * raw - 437040`.
pub proof fn lemma_centi_celsius_is_nearest(raw: int)
    ensures
        -8 <= (100 * raw - 437040) - 16 * centi_celsius(raw) < 8,
{
}

/// The rounded temperature never decreases when the raw value grows.
pub proof fn lemma_centi_celsius_monotonic(a: int, b: int)
    requires
        a <= b,
    ensures
        centi_celsius(a) <= centi_celsius(b),
{
}

/// Joins the two value bytes of a report, high byte first.
pub fn join_bytes(hi: u8, lo: u8) -> (raw: u16)
    ensures
        raw == raw_value(hi, lo),
{
    let joined: u16 = ((hi as u16) << 8) | (lo as u16);
    assert(((hi as u16) << 8) | (lo as u16) == (hi as u16) * 256 + (lo as u16)) by (bit_vector);
    joined
}

/// Converts a raw temperature to hundredths of a degree Celsius.
pub fn temperature_from_raw(raw: u16) -> (centi: i32)
    ensures
        centi == centi_celsius(raw as int),
        -27315 <= centi <= 382281,
{
    let scaled: u32 = 100 * (raw as u32) + 8;
    let sixteenths: u32 = scaled / 16;
    (sixteenths as i32) - 27315
}

/// Decodes one report: byte 0 is the tag, bytes 1 and 2 the raw value.
pub fn decode_report(report: &[u8; 8]) -> (reading: Reading)
    ensures
        reading == decoded(report@),
        !is_known_tag(report@[0]) <==> reading == Reading::Ignored,
{
    let tag: u8 = report[0];
    let raw: u16 = join_bytes(report[1], report[2]);
    if tag == CO2_ADDRESS {
        Reading::Co2(raw)
    } else if tag == TEMPERATURE_ADDRESS {
        Reading::Temperature(temperature_from_raw(raw))
    } else if tag == HUMIDITY_ADDRESS {
        Reading::Humidity(raw)
    } else {
        Reading::Ignored
    }
}

} // verus!
