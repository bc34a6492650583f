//! Text: numbers written in decimal, and bytes read as characters.

use vstd::prelude::*;
use vstd::string::StringExecFns;
use vstd::utf8::{decode_utf8, valid_utf8};

verus! {

/// The character for a number below ten.
pub open spec fn digit(d: nat) -> Seq<char> {
    if d == 0 {
        "0"@
    } else if d == 1 {
        "1"@
    } else if d == 2 {
        "2"@
    } else if d == 3 {
        "3"@
    } else if d == 4 {
        "4"@
    } else if d == 5 {
        "5"@
    } else if d == 6 {
        "6"@
    } else if d == 7 {
        "7"@
    } else if d == 8 {
        "8"@
    } else {
        "9"@
    }
}

/// `n` in decimal, without leading zeros.
pub open spec fn decimal(n: nat) -> Seq<char>
    decreases n,
{
    if n < 10 {
        digit(n)
    } else {
        decimal(n / 10) + digit(n % 10)
    }
}

/// `n` in decimal, with a minus sign in front of it where it is negative.
pub open spec fn signed_decimal(n: int) -> Seq<char> {
    if n < 0 {
        "-"@ + decimal((-n) as nat)
    } else {
        decimal(n as nat)
    }
}

fn digit_str(d: u64) -> (text: &'static str)
    requires
        d < 10,
    ensures
        text@ == digit(d as nat),
{
    match d {
        0 => "0",
        1 => "1",
        2 => "2",
        3 => "3",
        4 => "4",
        5 => "5",
        6 => "6",
        7 => "7",
        8 => "8",
        _ => "9",
    }
}

/// Writes `n` in decimal.
pub fn decimal_string(n: u64) -> (text: String)
    ensures
        text@ == decimal(n as nat),
    decreases n,
{
    if n < 10 {
        digit_str(n).to_owned()
    } else {
        let mut text = decimal_string(n / 10);
        text.append(digit_str(n % 10));
        text
    }
}

/// Writes `n` in decimal, with its sign where it is negative.
pub fn signed_decimal_string(n: i64) -> (text: String)
    ensures
        text@ == signed_decimal(n as int),
{
    if n < 0 {
        let mut text = "-".to_owned();
        let magnitude: u64 = (-(n as i128)) as u64;
        text.append(decimal_string(magnitude).as_str());
        text
    } else {
        decimal_string(n as u64)
    }
}

/// Reads UTF-8, through `std::str::from_utf8`: the result is there exactly where all of the bytes
/// are valid UTF-8, and then it is the text that they encode.
#[verifier::external_body]
pub(crate) fn utf8_str(bytes: &[u8]) -> (text: Option<&str>)
    ensures
        match text {
            Some(text) => utf8_text(bytes@) == Some(text@),
            None => utf8_text(bytes@) is None,
        },
{
    match std::str::from_utf8(bytes) {
        Ok(text) => Some(text),
        Err(_) => None,
    }
}

/// The 16-bit units that `bytes` hold two by two, the upper half of each first where `big` is set.
pub open spec fn utf16_units(bytes: Seq<u8>, big: bool) -> Seq<int> {
    Seq::new(
        bytes.len() / 2,
        |i: int|
            if big {
                bytes[2 * i] * 0x100 + bytes[2 * i + 1]
            } else {
                bytes[2 * i + 1] * 0x100 + bytes[2 * i]
            },
    )
}

/// The characters that `units` encode: one for each unit outside of the surrogates, and one for
/// each upper surrogate with the lower surrogate behind it.
pub open spec fn utf16_chars(units: Seq<int>) -> Option<Seq<char>>
    decreases units.len(),
{
    if units.len() == 0 {
        Some(Seq::empty())
    } else if units.len() >= 2 && 0xd800 <= units[0] < 0xdc00 && 0xdc00 <= units[1] < 0xe000 {
        match utf16_chars(units.skip(2)) {
            Some(rest) => Some(
                seq![(0x10000 + (units[0] - 0xd800) * 0x400 + (units[1] - 0xdc00)) as char] + rest,
            ),
            None => None,
        }
    } else if 0xd800 <= units[0] < 0xe000 {
        None
    } else {
        match utf16_chars(units.skip(1)) {
            Some(rest) => Some(seq![units[0] as char] + rest),
            None => None,
        }
    }
}

/// The text that `bytes` encode in UTF-16.
pub open spec fn utf16_text(bytes: Seq<u8>, big: bool) -> Option<Seq<char>> {
    if bytes.len() % 2 == 0 {
        utf16_chars(utf16_units(bytes, big))
    } else {
        None
    }
}

/// The text that `bytes` encode in UTF-8.
pub open spec fn utf8_text(bytes: Seq<u8>) -> Option<Seq<char>> {
    if valid_utf8(bytes) {
        Some(decode_utf8(bytes))
    } else {
        None
    }
}

/// The text that `bytes` encode in ASCII.
pub open spec fn ascii_text(bytes: Seq<u8>) -> Option<Seq<char>> {
    if forall|i: int| 0 <= i < bytes.len() ==> #[trigger] bytes[i] < 0x80 {
        Some(Seq::new(bytes.len(), |i: int| bytes[i] as char))
    } else {
        None
    }
}

/// The text of `bytes` whose encoding is known only from a byte order mark, and is ASCII where
/// there is none.
pub open spec fn marked_text(bytes: Seq<u8>) -> Option<Seq<char>> {
    if seq![0xefu8, 0xbb, 0xbf].is_prefix_of(bytes) {
        utf8_text(bytes.skip(3))
    } else if seq![0xfeu8, 0xff].is_prefix_of(bytes) {
        utf16_text(bytes.skip(2), true)
    } else if seq![0xffu8, 0xfe].is_prefix_of(bytes) {
        utf16_text(bytes.skip(2), false)
    } else {
        ascii_text(bytes)
    }
}

/// The characters of an optional text.
pub open spec fn text_of(text: Option<String>) -> Option<Seq<char>> {
    match text {
        Some(text) => Some(text@),
        None => None,
    }
}

/// Guesses the encoding of `bytes` and reads them, through `encoding::decode` with the strict trap
/// and ASCII to fall back on. A byte order mark decides for UTF-8 or UTF-16 and is no part of the
/// text; without one the bytes are ASCII. There is no result where the bytes are invalid in that
/// encoding.
#[verifier::external_body]
pub(crate) fn decode(bytes: &[u8]) -> (text: Option<String>)
    ensures
        text_of(text) == marked_text(bytes@),
{
    match encoding::decode(bytes, encoding::DecoderTrap::Strict, encoding::all::ASCII).0 {
        Ok(text) => Some(text),
        Err(_) => None,
    }
}

/// Text that is all ASCII is read as itself, in UTF-8 as well as without a known encoding.
pub proof fn law_ascii_is_read_as_itself(text: Seq<char>)
    requires
        vstd::utf8::is_ascii_chars(text),
    ensures
        utf8_text(vstd::utf8::encode_utf8(text)) == Some(text),
        marked_text(vstd::utf8::encode_utf8(text)) == Some(text),
{
    let bytes = vstd::utf8::encode_utf8(text);
    law_utf8_is_read_as_itself(text);
    vstd::utf8::is_ascii_chars_encode_utf8(text);
    assert(bytes =~= Seq::new(text.len(), |i: int| text[i] as u8));
    assert forall|i: int| 0 <= i < bytes.len() implies #[trigger] bytes[i] < 0x80 && bytes[i]
        as char == text[i] by {
        assert(0 <= text[i] as int <= 127);
    }
    assert(Seq::new(bytes.len(), |i: int| bytes[i] as char) =~= text);
}

/// Text is read back from its encoding in UTF-8.
pub proof fn law_utf8_is_read_as_itself(text: Seq<char>)
    ensures
        utf8_text(vstd::utf8::encode_utf8(text)) == Some(text),
{
    vstd::utf8::encode_utf8_valid_utf8(text);
    vstd::utf8::encode_utf8_decode_utf8(text);
}

} // verus!
