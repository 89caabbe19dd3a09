//! The two block header formats, and the checks of a header against them.
//!
//! A v1 header is 80 bytes long and has bit 31 of its version clear; a v2
//! header is 164 bytes long and has that bit set.

use vstd::prelude::*;
use vstd::utf8::encode_utf8;
use crate::failure::Failure;
use crate::hexadecimal::{decode, decoded};
use crate::json::text_of;

verus! {

/// The format number of a v1 header.
pub const V1: u64 = 1;

/// The format number of a v2 header.
pub const V2: u64 = 2;

/// How many bytes a v1 header has.
pub const V1_LENGTH: usize = 80;

/// How many bytes a v2 header has.
pub const V2_LENGTH: usize = 164;

/// The version of a raw header: its first four bytes, the lowest first.
pub open spec fn version_of(raw: Seq<u8>) -> u32 {
    (raw[0] + 0x100 * raw[1] + 0x1_0000 * raw[2] + 0x100_0000 * raw[3]) as u32
}

/// Whether bit 31 of a version is set.
pub open spec fn has_bit_31(version: u32) -> bool {
    version >= 0x8000_0000
}

/// How many bytes a header of a format has.
pub open spec fn header_length(want: u64) -> usize {
    if want == V2 {
        V2_LENGTH
    } else {
        V1_LENGTH
    }
}

/// Whether raw bytes are a header of a format, by their length and bit 31.
pub open spec fn is_format(raw: Seq<u8>, want: u64) -> bool {
    &&& raw.len() == header_length(want)
    &&& has_bit_31(version_of(raw)) == (want == V2)
}

/// Whether hexadecimal text is a serialized header of a format.
pub open spec fn is_format_text(text: Seq<char>, want: u64) -> bool {
    match decoded(encode_utf8(text)) {
        Ok(raw) => is_format(raw, want),
        Err(_) => false,
    }
}

/// What is wrong with the format that a verbose header reports, if anything.
pub open spec fn headerv_fault(height: u64, headerv: Option<u64>, want: u64) -> Option<
    Failure<Seq<char>>,
> {
    match headerv {
        None => Some(Failure::NoHeaderVersion),
        Some(headerv) => if headerv == want {
            None
        } else {
            Some(Failure::WrongHeaderVersion { height, headerv, want })
        },
    }
}

/// What is wrong with the bytes of a header, if anything.
pub open spec fn raw_fault(height: u64, headerv: u64, raw: Seq<u8>, want: u64) -> Option<
    Failure<Seq<char>>,
> {
    if raw.len() != header_length(want) {
        Some(
            Failure::WrongHeaderLength {
                height,
                length: raw.len() as u64,
                want_length: header_length(want) as u64,
            },
        )
    } else if has_bit_31(version_of(raw)) != (want == V2) {
        Some(Failure::WrongVersionBit { height, version: version_of(raw), headerv })
    } else {
        None
    }
}

/// What is wrong with a serialized header, if anything.
pub open spec fn header_fault(
    height: u64,
    headerv: u64,
    text: Option<Seq<char>>,
    want: u64,
) -> Option<Failure<Seq<char>>> {
    match text {
        None => Some(Failure::HeaderNotText),
        Some(text) => match decoded(encode_utf8(text)) {
            Err(error) => Some(Failure::BadHex(error)),
            Ok(raw) => raw_fault(height, headerv, raw, want),
        },
    }
}

/// What is wrong with the bytes of a header of a level 0 chain, if anything.
pub open spec fn level_zero_raw_fault(height: u64, raw: Seq<u8>) -> Option<Failure<Seq<char>>> {
    if raw.len() != V1_LENGTH {
        Some(Failure::LevelZeroLength { height, length: raw.len() as u64 })
    } else if has_bit_31(version_of(raw)) {
        Some(Failure::LevelZeroBit { height, version: version_of(raw) })
    } else {
        None
    }
}

/// What is wrong with a serialized header of a level 0 chain, if anything.
pub open spec fn level_zero_fault(height: u64, text: Option<Seq<char>>) -> Option<
    Failure<Seq<char>>,
> {
    match text {
        None => Some(Failure::HeaderNotText),
        Some(text) => match decoded(encode_utf8(text)) {
            Err(error) => Some(Failure::BadHex(error)),
            Ok(raw) => level_zero_raw_fault(height, raw),
        },
    }
}

/// Whether a check succeeded where nothing is wrong, and failed with what is
/// wrong otherwise.
pub open spec fn reports(result: Result<(), Failure<String>>, fault: Option<Failure<Seq<char>>>) -> bool {
    match result {
        Ok(()) => fault is None,
        Err(failure) => fault == Some(failure@),
    }
}

/// Reads the version of a raw header.
pub fn read_version(raw: &Vec<u8>) -> (version: u32)
    requires
        raw@.len() >= 4,
    ensures
        version == version_of(raw@),
        version == raw@[0] + 256 * raw@[1] + 65_536 * raw@[2] + 16_777_216 * raw@[3],
{
    raw[0] as u32 + 0x100 * (raw[1] as u32) + 0x1_0000 * (raw[2] as u32) + 0x100_0000 * (
    raw[3] as u32)
}

/// Whether bit 31 of a version is set.
pub fn bit_31(version: u32) -> (set: bool)
    ensures
        set == has_bit_31(version),
        set == (version & 0x8000_0000 != 0),
{
    assert((version & 0x8000_0000 != 0) == (version >= 0x8000_0000)) by (bit_vector);
    version & 0x8000_0000 != 0
}

/// Checks the format that a verbose header reports, and hands it on.
pub fn check_headerv(height: u64, headerv: Option<u64>, want: u64) -> (checked: Result<
    u64,
    Failure<String>,
>)
    ensures
        match checked {
            Ok(checked) => headerv == Some(checked) && headerv_fault(height, headerv, want) is None,
            Err(failure) => headerv_fault(height, headerv, want) == Some(failure@),
        },
        checked is Ok <==> headerv == Some(want),
        headerv is None ==> (checked matches Err(Failure::NoHeaderVersion)),
        headerv matches Some(got) && got != want ==> checked == Err::<u64, Failure<String>>(
            Failure::WrongHeaderVersion { height, headerv: headerv->0, want },
        ),
{
    match headerv {
        None => Err(Failure::NoHeaderVersion),
        Some(headerv) => if headerv == want {
            Ok(headerv)
        } else {
            Err(Failure::WrongHeaderVersion { height, headerv, want })
        },
    }
}

/// Checks the bytes of a header against a format.
pub fn check_raw(height: u64, headerv: u64, raw: &Vec<u8>, want: u64) -> (checked: Result<
    (),
    Failure<String>,
>)
    ensures
        reports(checked, raw_fault(height, headerv, raw@, want)),
        want == 2 ==> (checked is Ok <==> raw@.len() == 164 && raw@[3] >= 128),
        want != 2 ==> (checked is Ok <==> raw@.len() == 80 && raw@[3] < 128),
{
    let want_length: usize = if want == V2 {
        V2_LENGTH
    } else {
        V1_LENGTH
    };
    if raw.len() != want_length {
        return Err(
            Failure::WrongHeaderLength {
                height,
                length: raw.len() as u64,
                want_length: want_length as u64,
            },
        );
    }
    let version = read_version(raw);
    if bit_31(version) != (want == V2) {
        return Err(Failure::WrongVersionBit { height, version, headerv });
    }
    Ok(())
}

/// Checks a serialized header against a format.
pub fn check_header(height: u64, headerv: u64, text: &Option<String>, want: u64) -> (checked:
    Result<(), Failure<String>>)
    ensures
        reports(checked, header_fault(height, headerv, text_of(*text), want)),
        checked is Ok <==> (text matches Some(text) && (decoded(encode_utf8(text@)) matches Ok(raw)
            && (if want == 2 {
            raw.len() == 164 && raw[3] >= 128
        } else {
            raw.len() == 80 && raw[3] < 128
        }))),
{
    match text {
        None => Err(Failure::HeaderNotText),
        Some(text) => match decode(text.as_str().as_bytes()) {
            Err(error) => Err(Failure::BadHex(error)),
            Ok(raw) => check_raw(height, headerv, &raw, want),
        },
    }
}

/// Checks that the bytes of a header of a level 0 chain are a v1 header.
pub fn check_level_zero_raw(height: u64, raw: &Vec<u8>) -> (checked: Result<(), Failure<String>>)
    ensures
        reports(checked, level_zero_raw_fault(height, raw@)),
        checked is Ok <==> raw@.len() == 80 && raw@[3] < 128,
{
    if raw.len() != V1_LENGTH {
        return Err(Failure::LevelZeroLength { height, length: raw.len() as u64 });
    }
    let version = read_version(raw);
    if bit_31(version) {
        return Err(Failure::LevelZeroBit { height, version });
    }
    Ok(())
}

/// Checks that a serialized header of a level 0 chain is a v1 header.
pub fn check_level_zero(height: u64, text: &Option<String>) -> (checked: Result<
    (),
    Failure<String>,
>)
    ensures
        reports(checked, level_zero_fault(height, text_of(*text))),
        checked is Ok <==> (text matches Some(text) && (decoded(encode_utf8(text@)) matches Ok(raw)
            && raw.len() == 80 && raw[3] < 128)),
{
    match text {
        None => Err(Failure::HeaderNotText),
        Some(text) => match decode(text.as_str().as_bytes()) {
            Err(error) => Err(Failure::BadHex(error)),
            Ok(raw) => check_level_zero_raw(height, &raw),
        },
    }
}

/// No bytes are a header of both formats.
pub proof fn law_formats_are_disjoint(raw: Seq<u8>)
    ensures
        !(is_format(raw, V1) && is_format(raw, V2)),
{
}

/// A serialized header passes the check exactly where it is a header of the
/// format, whatever the height and the reported format are.
pub proof fn law_check_decides_format(height: u64, headerv: u64, text: Seq<char>, want: u64)
    ensures
        header_fault(height, headerv, Some(text), want) is None <==> is_format_text(text, want),
{
}

/// On a level 0 chain a header passes exactly where it passes as v1 elsewhere.
pub proof fn law_level_zero_is_v1(height: u64, headerv: u64, text: Option<Seq<char>>)
    ensures
        level_zero_fault(height, text) is None <==> header_fault(height, headerv, text, V1) is None,
{
}

/// Bytes are a v1 header exactly where there are 80 of them and the top bit of
/// the fourth is clear, and a v2 header exactly where there are 164 and it is
/// set.
pub proof fn law_formats(raw: Seq<u8>)
    ensures
        is_format(raw, 1) <==> raw.len() == 80 && raw[3] < 128,
        is_format(raw, 2) <==> raw.len() == 164 && raw[3] >= 128,
{
}

/// What is wrong with the bytes of a header is said in full: the length that
/// they have and the one that they should have comes before the bit that
/// contradicts the format.
pub proof fn law_header_faults(height: u64, headerv: u64, raw: Seq<u8>, want: u64)
    requires
        raw.len() <= u64::MAX,
    ensures
        ({
            let length: u64 = if want == 2 {
                164
            } else {
                80
            };
            &&& raw.len() != length ==> raw_fault(height, headerv, raw, want) == Some(
                Failure::<Seq<char>>::WrongHeaderLength {
                    height,
                    length: raw.len() as u64,
                    want_length: length,
                },
            )
            &&& raw.len() == length && (raw[3] >= 128) != (want == 2) ==> (raw_fault(
                height,
                headerv,
                raw,
                want,
            ) matches Some(Failure::WrongVersionBit { height: h, version, headerv: v }) && h
                == height && v == headerv && version == raw[0] + 256 * raw[1] + 65_536 * raw[2]
                + 16_777_216 * raw[3])
            &&& raw.len() == length && (raw[3] >= 128) == (want == 2) ==> raw_fault(
                height,
                headerv,
                raw,
                want,
            ) is None
        }),
{
}

/// At level 0 the same is said of a header that is not v1.
pub proof fn law_level_zero_faults(height: u64, raw: Seq<u8>)
    requires
        raw.len() <= u64::MAX,
    ensures
        raw.len() != 80 ==> level_zero_raw_fault(height, raw) == Some(
            Failure::<Seq<char>>::LevelZeroLength { height, length: raw.len() as u64 },
        ),
        raw.len() == 80 && raw[3] >= 128 ==> (level_zero_raw_fault(height, raw) matches Some(
            Failure::LevelZeroBit { height: h, version },
        ) && h == height && version == raw[0] + 256 * raw[1] + 65_536 * raw[2] + 16_777_216
            * raw[3]),
        raw.len() == 80 && raw[3] < 128 ==> level_zero_raw_fault(height, raw) is None,
{
}

/// A serialized header that is no text, or no hexadecimal text, is refused as
/// such, and any other is judged by its bytes.
pub proof fn law_text_comes_first(height: u64, headerv: u64, text: Seq<char>, want: u64)
    ensures
        header_fault(height, headerv, None, want) == Some(Failure::<Seq<char>>::HeaderNotText),
        level_zero_fault(height, None) == Some(Failure::<Seq<char>>::HeaderNotText),
        match decoded(encode_utf8(text)) {
            Err(error) => {
                &&& header_fault(height, headerv, Some(text), want) == Some(
                    Failure::<Seq<char>>::BadHex(error),
                )
                &&& level_zero_fault(height, Some(text)) == Some(
                    Failure::<Seq<char>>::BadHex(error),
                )
            },
            Ok(raw) => {
                &&& header_fault(height, headerv, Some(text), want) == raw_fault(
                    height,
                    headerv,
                    raw,
                    want,
                )
                &&& level_zero_fault(height, Some(text)) == level_zero_raw_fault(height, raw)
            },
        },
{
}

} // verus!
