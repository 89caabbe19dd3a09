//! Hexadecimal text and the bytes it stands for.

use vstd::prelude::*;

verus! {

/// Why a text is not hexadecimal.
#[derive(Clone, Copy, Debug, PartialEq, Eq)]
pub enum HexError {
    /// A character that is no hexadecimal digit.
    InvalidHexCharacter { c: char, index: usize },
    /// Two digits make a byte, and one is left over.
    OddLength,
    /// The text does not fill a container of fixed size.
    InvalidStringLength,
}

/// The value of a hexadecimal digit in ASCII, in either case.
pub open spec fn digit_value(b: u8) -> Option<int> {
    if 48 <= b <= 57 {
        Some(b - 48)
    } else if 65 <= b <= 70 {
        Some(b - 65 + 10)
    } else if 97 <= b <= 102 {
        Some(b - 97 + 10)
    } else {
        None
    }
}

/// The first place at or after `from` that holds no hexadecimal digit.
pub open spec fn first_bad(text: Seq<u8>, from: int) -> Option<int>
    decreases text.len() - from,
{
    if from >= text.len() {
        None
    } else if digit_value(text[from]) is None {
        Some(from)
    } else {
        first_bad(text, from + 1)
    }
}

/// The bytes that a text of hexadecimal digits stands for.
pub open spec fn hex_bytes(text: Seq<u8>) -> Seq<u8> {
    Seq::new(
        text.len() / 2,
        |i: int| (16 * digit_value(text[2 * i])->0 + digit_value(text[2 * i + 1])->0) as u8,
    )
}

/// What a hexadecimal text decodes to.
pub open spec fn decoded(text: Seq<u8>) -> Result<Seq<u8>, HexError> {
    if text.len() % 2 != 0 {
        Err(HexError::OddLength)
    } else {
        match first_bad(text, 0) {
            Some(i) => Err(HexError::InvalidHexCharacter { c: text[i] as char, index: i as usize }),
            None => Ok(hex_bytes(text)),
        }
    }
}

/// Calls `hex::decode`: an odd number of bytes is refused first, then the first
/// byte that is no digit; otherwise each two digits make a byte, the high half
/// first.
#[verifier::external_body]
pub(crate) fn decode(text: &[u8]) -> (bytes: Result<Vec<u8>, HexError>)
    ensures
        match bytes {
            Ok(bytes) => decoded(text@) == Ok::<Seq<u8>, HexError>(bytes@),
            Err(error) => decoded(text@) == Err::<Seq<u8>, HexError>(error),
        },
{
    match hex::decode(text) {
        Ok(bytes) => Ok(bytes),
        Err(hex::FromHexError::InvalidHexCharacter { c, index }) => Err(
            HexError::InvalidHexCharacter { c, index },
        ),
        Err(hex::FromHexError::OddLength) => Err(HexError::OddLength),
        Err(hex::FromHexError::InvalidStringLength) => Err(HexError::InvalidStringLength),
    }
}

/// The text that `Debug` writes of a character.
pub uninterp spec fn char_debug(c: char) -> Seq<char>;

/// Calls `<char as Debug>::fmt`: the character in quotes, escaped where it must
/// be, a function of the character.
#[verifier::external_body]
pub(crate) fn debug_char(c: char) -> (text: String)
    ensures
        text@ == char_debug(c),
{
    format!("{:?}", c)
}

/// The sixteen digits have the sixteen values, the letters in either case, and
/// no other byte is a digit.
pub proof fn law_digits(d: int, b: u8)
    requires
        0 <= d < 16,
    ensures
        d < 10 ==> digit_value(('0' as int + d) as u8) == Some(d),
        d >= 10 ==> digit_value(('A' as int + d - 10) as u8) == Some(d),
        d >= 10 ==> digit_value(('a' as int + d - 10) as u8) == Some(d),
        digit_value(b) is Some <==> ('0' as u8 <= b <= '9' as u8 || 'A' as u8 <= b <= 'F' as u8
            || 'a' as u8 <= b <= 'f' as u8),
{
}

proof fn lemma_first_bad(text: Seq<u8>, from: int)
    requires
        0 <= from <= text.len(),
    ensures
        match first_bad(text, from) {
            None => forall|i: int| from <= i < text.len() ==> digit_value(#[trigger] text[i]) is Some,
            Some(bad) => {
                &&& from <= bad < text.len()
                &&& digit_value(text[bad]) is None
                &&& forall|i: int| from <= i < bad ==> digit_value(#[trigger] text[i]) is Some
            },
        },
    decreases text.len() - from,
{
    if from < text.len() && digit_value(text[from]) is Some {
        lemma_first_bad(text, from + 1);
    }
}

/// A text decodes exactly where it has an even number of bytes and all of them
/// are digits, and then each two of them make a byte, the high half first.
/// Otherwise an odd number is named first, and then the first byte that is no
/// digit, with its place.
pub proof fn law_decoding(text: Seq<u8>)
    requires
        text.len() <= usize::MAX,
    ensures
        text.len() % 2 != 0 ==> decoded(text) == Err::<Seq<u8>, HexError>(HexError::OddLength),
        decoded(text) is Ok <==> text.len() % 2 == 0 && (forall|i: int|
            0 <= i < text.len() ==> digit_value(#[trigger] text[i]) is Some),
        decoded(text) matches Ok(bytes) ==> {
            &&& 2 * bytes.len() == text.len()
            &&& forall|i: int|
                0 <= i < bytes.len() ==> #[trigger] bytes[i] == 16 * digit_value(text[2 * i])->0
                    + digit_value(text[2 * i + 1])->0
        },
        text.len() % 2 == 0 && decoded(text) is Err ==> (decoded(text) matches Err(
            HexError::InvalidHexCharacter { c, index },
        ) && index < text.len() && c as int == text[index as int] && digit_value(
            text[index as int],
        ) is None && (forall|i: int|
            0 <= i < index ==> digit_value(#[trigger] text[i]) is Some)),
{
    lemma_first_bad(text, 0);
}

} // verus!
