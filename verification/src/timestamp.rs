//! Parsing of clock times written as `HH:MM:SS`.

use vstd::prelude::*;
use vstd::string::StringSliceAdditionalSpecFns;

verus! {

/// The byte is an ASCII decimal digit.
pub open spec fn is_digit(b: u8) -> bool {
    0x30 <= b <= 0x39
}

/// The number that a two-byte field stands for: two decimal digits, or a
/// plus sign and one digit. Anything else is no number.
pub open spec fn field_value(hi: u8, lo: u8) -> Option<u32> {
    if is_digit(hi) && is_digit(lo) {
        Some(((hi - 0x30) * 10 + (lo - 0x30)) as u32)
    } else if hi == 0x2b && is_digit(lo) {
        Some((lo - 0x30) as u32)
    } else {
        None
    }
}

/// The time that a text stands for: exactly eight bytes, colons at the
/// third and sixth, and a number in each of the three fields between.
pub open spec fn time_of(bytes: Seq<u8>) -> Option<(u32, u32, u32)> {
    if bytes.len() != 8 || bytes[2] != 0x3a || bytes[5] != 0x3a {
        None
    } else {
        match (
            field_value(bytes[0], bytes[1]),
            field_value(bytes[3], bytes[4]),
            field_value(bytes[6], bytes[7]),
        ) {
            (Some(hour), Some(minute), Some(second)) => Some((hour, minute, second)),
            _ => None,
        }
    }
}

/// Eight bytes of the shape digit digit colon digit digit colon digit digit.
pub open spec fn well_formed(bytes: Seq<u8>) -> bool {
    &&& bytes.len() == 8
    &&& bytes[2] == 0x3a
    &&& bytes[5] == 0x3a
    &&& is_digit(bytes[0])
    &&& is_digit(bytes[1])
    &&& is_digit(bytes[3])
    &&& is_digit(bytes[4])
    &&& is_digit(bytes[6])
    &&& is_digit(bytes[7])
}

fn digit(b: u8) -> (d: Option<u32>)
    ensures
        d.is_some() == is_digit(b),
        d matches Some(value) ==> value == b - 0x30,
{
    if 0x30 <= b && b <= 0x39 {
        Some((b - 0x30) as u32)
    } else {
        None
    }
}

fn parse_field(hi: u8, lo: u8) -> (value: Option<u32>)
    ensures
        value == field_value(hi, lo),
{
    match digit(lo) {
        None => None,
        Some(units) => match digit(hi) {
            Some(tens) => Some(tens * 10 + units),
            None => if hi == 0x2b {
                Some(units)
            } else {
                None
            },
        },
    }
}

/// Reads `HH:MM:SS` as hour, minute and second. Every text is accepted as
/// input, whatever characters it holds; those that are not a time give
/// `None`. The fields are not range-checked: `99:99:99` is read as it
/// stands.
pub fn parse_time(s: &str) -> (time: Option<(u32, u32, u32)>)
    ensures
        time == time_of(s.spec_bytes()),
{
    let bytes = s.as_bytes();
    if bytes.len() != 8 {
        return None;
    }
    if bytes[2] != 0x3a || bytes[5] != 0x3a {
        return None;
    }
    match parse_field(bytes[0], bytes[1]) {
        None => None,
        Some(hour) => match parse_field(bytes[3], bytes[4]) {
            None => None,
            Some(minute) => match parse_field(bytes[6], bytes[7]) {
                None => None,
                Some(second) => Some((hour, minute, second)),
            },
        },
    }
}

/// Every well-formed time is read, digit for digit, and each of its
/// fields is below one hundred.
pub proof fn law_well_formed_times_parse(bytes: Seq<u8>)
    requires
        well_formed(bytes),
    ensures
        time_of(bytes) == Some(
            (
                ((bytes[0] - 0x30) * 10 + (bytes[1] - 0x30)) as u32,
                ((bytes[3] - 0x30) * 10 + (bytes[4] - 0x30)) as u32,
                ((bytes[6] - 0x30) * 10 + (bytes[7] - 0x30)) as u32,
            ),
        ),
        time_of(bytes) matches Some(t) && t.0 < 100 && t.1 < 100 && t.2 < 100,
{
}

/// A text of any other length than eight bytes is never a time.
pub proof fn law_wrong_length_is_no_time(bytes: Seq<u8>)
    requires
        bytes.len() != 8,
    ensures
        time_of(bytes).is_none(),
{
}

} // verus!
