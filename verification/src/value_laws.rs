//! What values, numbers and text are when they are exchanged with libmpv.

use vstd::prelude::*;
use vstd::utf8::{encode_utf8, is_ascii_chars, valid_utf8};

use crate::data::{Data, DataModel, Double};
use crate::instance::{read_text, Codec};
use crate::raw::{MpvError, MpvEventId, MpvFormat, MpvLogLevel, MpvNode};
use crate::text::{
    decimal, decimal_string, digit, law_ascii_is_read_as_itself, law_utf8_is_read_as_itself,
    marked_text, signed_decimal, signed_decimal_string, utf16_chars, utf16_text, utf16_units,
    utf8_text,
};

verus! {

/// Errors count down from zero, in the order of libmpv.
pub proof fn law_errors_have_their_numbers(number: i32, error: Option<MpvError>)
    requires
        call_ensures(MpvError::from_i32, (number,), error),
    ensures
        error == Some(MpvError::Success) <==> number == 0,
        error == Some(MpvError::EventQueueFull) <==> number == -1,
        error == Some(MpvError::NoMem) <==> number == -2,
        error == Some(MpvError::Uninitialized) <==> number == -3,
        error == Some(MpvError::InvalidParameter) <==> number == -4,
        error == Some(MpvError::OptionNotFound) <==> number == -5,
        error == Some(MpvError::OptionFormat) <==> number == -6,
        error == Some(MpvError::OptionError) <==> number == -7,
        error == Some(MpvError::PropertyNotFound) <==> number == -8,
        error == Some(MpvError::PropertyFormat) <==> number == -9,
        error == Some(MpvError::PropertyUnavailable) <==> number == -10,
        error == Some(MpvError::PropertyError) <==> number == -11,
        error == Some(MpvError::Command) <==> number == -12,
        error == Some(MpvError::LoadingFailed) <==> number == -13,
        error == Some(MpvError::AoInitFailed) <==> number == -14,
        error == Some(MpvError::VoInitFailed) <==> number == -15,
        error == Some(MpvError::NothingToPlay) <==> number == -16,
        error == Some(MpvError::UnknownFormat) <==> number == -17,
        error == Some(MpvError::Unsupported) <==> number == -18,
        error == Some(MpvError::NotImplemented) <==> number == -19,
        error == Some(MpvError::Generic) <==> number == -20,
        error is Some <==> -20 <= number <= 0,
{
}

/// The number of an error is read back as what it stands for.
pub proof fn law_errors_have_their_numbers_and_back(
    error: &MpvError,
    number: i32,
    read: Option<MpvError>,
)
    requires
        call_ensures(MpvError::as_val, (error,), number),
        call_ensures(MpvError::from_i32, (number,), read),
    ensures
        read == Some(*error),
{
}

/// Kinds of events count up from zero, in the order of libmpv.
pub proof fn law_kinds_have_their_numbers(number: i32, kind: Option<MpvEventId>)
    requires
        call_ensures(MpvEventId::from_i32, (number,), kind),
    ensures
        kind == Some(MpvEventId::NoEvent) <==> number == 0,
        kind == Some(MpvEventId::Shutdown) <==> number == 1,
        kind == Some(MpvEventId::LogMessage) <==> number == 2,
        kind == Some(MpvEventId::GetPropertyReply) <==> number == 3,
        kind == Some(MpvEventId::SetPropertyReply) <==> number == 4,
        kind == Some(MpvEventId::CommandReply) <==> number == 5,
        kind == Some(MpvEventId::StartFile) <==> number == 6,
        kind == Some(MpvEventId::EndFile) <==> number == 7,
        kind == Some(MpvEventId::FileLoaded) <==> number == 8,
        kind == Some(MpvEventId::TracksChanged) <==> number == 9,
        kind == Some(MpvEventId::TrackSwitched) <==> number == 10,
        kind == Some(MpvEventId::Idle) <==> number == 11,
        kind == Some(MpvEventId::Pause) <==> number == 12,
        kind == Some(MpvEventId::Unpause) <==> number == 13,
        kind == Some(MpvEventId::Tick) <==> number == 14,
        kind == Some(MpvEventId::ScriptInputDispatch) <==> number == 15,
        kind == Some(MpvEventId::ClientMessage) <==> number == 16,
        kind == Some(MpvEventId::VideoReconfig) <==> number == 17,
        kind == Some(MpvEventId::AudioReconfig) <==> number == 18,
        kind == Some(MpvEventId::MetadataUpdate) <==> number == 19,
        kind == Some(MpvEventId::Seek) <==> number == 20,
        kind == Some(MpvEventId::PlaybackRestart) <==> number == 21,
        kind == Some(MpvEventId::PropertyChange) <==> number == 22,
        kind == Some(MpvEventId::ChapterChange) <==> number == 23,
        kind == Some(MpvEventId::QueueOverflow) <==> number == 24,
        kind is Some <==> 0 <= number <= 24,
{
}

/// The number of a kind of events is read back as what it stands for.
pub proof fn law_kinds_have_their_numbers_and_back(
    kind: MpvEventId,
    number: i32,
    read: Option<MpvEventId>,
)
    requires
        call_ensures(MpvEventId::as_val, (kind,), number),
        call_ensures(MpvEventId::from_i32, (number,), read),
    ensures
        read == Some(kind),
{
}

/// Formats count up from zero, in the order of libmpv.
pub proof fn law_formats_have_their_numbers(number: i32, format: Option<MpvFormat>)
    requires
        call_ensures(MpvFormat::from_i32, (number,), format),
    ensures
        format == Some(MpvFormat::NoFormat) <==> number == 0,
        format == Some(MpvFormat::String) <==> number == 1,
        format == Some(MpvFormat::OsdString) <==> number == 2,
        format == Some(MpvFormat::Flag) <==> number == 3,
        format == Some(MpvFormat::Int64) <==> number == 4,
        format == Some(MpvFormat::Double) <==> number == 5,
        format == Some(MpvFormat::Node) <==> number == 6,
        format == Some(MpvFormat::NodeArray) <==> number == 7,
        format == Some(MpvFormat::NodeMap) <==> number == 8,
        format == Some(MpvFormat::ByteArray) <==> number == 9,
        format is Some <==> 0 <= number <= 9,
{
}

/// The number of a format is read back as what it stands for.
pub proof fn law_formats_have_their_numbers_and_back(
    format: MpvFormat,
    number: i32,
    read: Option<MpvFormat>,
)
    requires
        call_ensures(MpvFormat::as_val, (format,), number),
        call_ensures(MpvFormat::from_i32, (number,), read),
    ensures
        read == Some(format),
{
}

/// Verbosities go up in tens from zero, in the order of libmpv.
pub proof fn law_verbosities_have_their_numbers(number: i32, level: Option<MpvLogLevel>)
    requires
        call_ensures(MpvLogLevel::from_i32, (number,), level),
    ensures
        level == Some(MpvLogLevel::NoLevel) <==> number == 0,
        level == Some(MpvLogLevel::Fatal) <==> number == 10,
        level == Some(MpvLogLevel::Error) <==> number == 20,
        level == Some(MpvLogLevel::Warn) <==> number == 30,
        level == Some(MpvLogLevel::Info) <==> number == 40,
        level == Some(MpvLogLevel::V) <==> number == 50,
        level == Some(MpvLogLevel::Debug) <==> number == 60,
        level == Some(MpvLogLevel::Trace) <==> number == 70,
        level is Some <==> 0 <= number <= 70 && number % 10 == 0,
{
}

/// The view of data is of the kind of the data, and holds what the data holds.
pub proof fn law_data_is_seen_as_it_is(data: Data)
    ensures
        match data {
            Data::String(text) => data@ == DataModel::String(text@),
            Data::OsdString(text) => data@ == DataModel::OsdString(text@),
            Data::Flag(flag) => data@ == DataModel::Flag(flag),
            Data::Int64(number) => data@ == DataModel::Int64(number),
            Data::Double(number) => data@ == DataModel::Double(number),
            Data::Node(node) => data@ == DataModel::Node(node),
        },
{
}

/// Data is exchanged in the format of its kind: text as text, flags as flags, integers as
/// integers, doubles as doubles.
pub proof fn law_format_is_that_of_the_kind(data: &Data, format: MpvFormat)
    requires
        call_ensures(Data::format, (data,), format),
    ensures
        format is String <==> data is String,
        format is OsdString <==> data is OsdString,
        format is Flag <==> data is Flag,
        format is Int64 <==> data is Int64,
        format is Double <==> data is Double,
        format is Node <==> data is Node,
        format == data@.format(),
{
}

/// A machine word is read as the value that it is: a flag is set unless the word is zero, an
/// integer is the word but for a multiple of two to the power of 64, a double has the word for its
/// bits.
pub proof fn law_word_is_read_as_its_value(format: MpvFormat, word: u64, data: Data)
    requires
        call_ensures(Data::from_raw, (format, word), data),
    ensures
        format is Flag ==> data == Data::Flag(word != 0),
        format is Int64 ==> (data matches Data::Int64(number) && (word - number)
            % 0x1_0000_0000_0000_0000 == 0),
        format is Double ==> data == Data::Double(Double { bits: word }),
{
    if let Data::Int64(number) = data {
        assert(number == crate::data::twos_complement(word) as i64);
    }
}

/// A value is written as the machine word that it is: a flag as one or zero, an integer as itself
/// but for a multiple of two to the power of 64, a double as its bits.
pub proof fn law_value_is_written_as_its_word(data: &Data, word: u64)
    requires
        call_ensures(Data::to_raw, (data,), word),
    ensures
        *data matches Data::Flag(flag) ==> word == if flag {
            1int
        } else {
            0int
        },
        *data matches Data::Int64(number) ==> (word - number) % 0x1_0000_0000_0000_0000 == 0,
        *data matches Data::Double(number) ==> word == number.bits,
{
    if let Data::Int64(number) = *data {
        assert(number >= 0 ==> number as u64 == number) by (bit_vector);
        assert(number < 0 ==> number as u64 == number + 0x1_0000_0000_0000_0000) by (bit_vector);
    }
}

/// Flags, integers and doubles are read back as they were written.
pub proof fn law_written_value_is_read_back(data: &Data, format: MpvFormat, word: u64, read: Data)
    requires
        data is Flag || data is Int64 || data is Double,
        call_ensures(Data::format, (data,), format),
        call_ensures(Data::to_raw, (data,), word),
        call_ensures(Data::from_raw, (format, word), read),
    ensures
        read == *data,
{
    law_format_is_that_of_the_kind(data, format);
    law_word_is_read_as_its_value(format, word, read);
    law_value_is_written_as_its_word(data, word);
}

/// A copy of data is the data.
pub proof fn law_copy_of_data_is_the_data(data: &Data, copy: Data)
    requires
        call_ensures(<Data as Clone>::clone, (data,), copy),
    ensures
        copy == *data,
{
}

/// Data is made of a value of each supported type, and holds that value.
pub proof fn law_data_holds_what_it_is_made_of(
    text: String,
    of_text: Data,
    flag: bool,
    of_flag: Data,
    number: isize,
    of_number: Data,
    double: Double,
    of_double: Data,
    node: MpvNode,
    of_node: Data,
)
    requires
        call_ensures(Data::new::<String>, (text,), of_text),
        call_ensures(Data::new::<bool>, (flag,), of_flag),
        call_ensures(Data::new::<isize>, (number,), of_number),
        call_ensures(Data::new::<Double>, (double,), of_double),
        call_ensures(Data::new::<MpvNode>, (node,), of_node),
    ensures
        of_text == Data::String(text),
        of_flag == Data::Flag(flag),
        of_number matches Data::Int64(held) && held == number,
        of_double == Data::Double(double),
        of_node == Data::Node(node),
{
}

/// The exponent of a double, as its bits give it.
pub open spec fn exponent(d: Double) -> int {
    d.bits as int / 0x10_0000_0000_0000 % 0x800
}

/// The fraction of a double, as its bits give it.
pub open spec fn fraction(d: Double) -> int {
    d.bits as int % 0x10_0000_0000_0000
}

/// Whether the bits of a double stand for a number.
pub open spec fn has_number(d: Double) -> bool {
    exponent(d) < 0x7ff || fraction(d) == 0
}

/// An integer that grows with the number for which the bits of a double stand.
pub open spec fn rank(d: Double) -> int {
    if d.bits >= 0x8000_0000_0000_0000 {
        -(exponent(d) * 0x10_0000_0000_0000 + fraction(d))
    } else {
        exponent(d) * 0x10_0000_0000_0000 + fraction(d)
    }
}

/// Doubles are equal exactly if both stand for a number, and for the same one.
pub proof fn law_doubles_are_compared_as_numbers(a: &Double, b: &Double, equal: bool)
    requires
        call_ensures(Double::equals, (a, b), equal),
    ensures
        equal <==> has_number(*a) && has_number(*b) && rank(*a) == rank(*b),
{
}

/// Values are equal exactly if they are of one kind and hold the same. Doubles are compared as
/// numbers.
pub proof fn law_values_are_compared_by_what_they_hold(a: &Data, b: &Data, equal: bool)
    requires
        !(a is Node && b is Node),
        call_ensures(Data::equals, (a, b), equal),
    ensures
        equal <==> match (*a, *b) {
            (Data::String(x), Data::String(y)) => x@ == y@,
            (Data::OsdString(x), Data::OsdString(y)) => x@ == y@,
            (Data::Flag(x), Data::Flag(y)) => x == y,
            (Data::Int64(x), Data::Int64(y)) => x == y,
            (Data::Double(x), Data::Double(y)) => has_number(x) && has_number(y) && rank(x) == rank(
                y,
            ),
            _ => false,
        },
{
}

/// The number for which a text of digits stands.
pub open spec fn number_of(text: Seq<char>) -> int
    decreases text.len(),
{
    if text.len() == 0 {
        0
    } else {
        number_of(text.drop_last()) * 10 + (text.last() as int - '0' as int)
    }
}

/// Whether a text is a number in decimal: digits, without a zero in front of others.
pub open spec fn is_decimal(text: Seq<char>) -> bool {
    &&& text.len() > 0
    &&& forall|i: int| 0 <= i < text.len() ==> '0' as int <= #[trigger] text[i] as int <= '9' as int
    &&& text.len() > 1 ==> text[0] != '0'
}

proof fn lemma_digit(d: nat)
    requires
        d < 10,
    ensures
        digit(d).len() == 1,
        digit(d)[0] as int == '0' as int + d,
{
    reveal_strlit("0");
    reveal_strlit("1");
    reveal_strlit("2");
    reveal_strlit("3");
    reveal_strlit("4");
    reveal_strlit("5");
    reveal_strlit("6");
    reveal_strlit("7");
    reveal_strlit("8");
    reveal_strlit("9");
}

/// The decimal form of a number stands for it.
pub proof fn law_decimal_stands_for_its_number(n: nat)
    ensures
        is_decimal(decimal(n)),
        number_of(decimal(n)) == n,
        n > 0 ==> decimal(n)[0] != '0',
    decreases n,
{
    lemma_digit(n % 10);
    reveal_with_fuel(number_of, 3);
    if n < 10 {
        lemma_digit(n);
        assert(decimal(n).drop_last() =~= Seq::empty());
    } else {
        law_decimal_stands_for_its_number(n / 10);
        assert(decimal(n).drop_last() =~= decimal(n / 10));
        assert(decimal(n).last() == digit(n % 10)[0]);
    }
}

/// A number is written as digits that stand for it.
pub proof fn law_number_is_written_in_decimal(n: u64, text: String)
    requires
        call_ensures(decimal_string, (n,), text),
    ensures
        is_decimal(text@),
        number_of(text@) == n,
{
    law_decimal_stands_for_its_number(n as nat);
}

/// A number with a sign is written as digits that stand for it, behind a minus sign exactly if it
/// is negative.
pub proof fn law_signed_number_is_written_in_decimal(n: i64, text: String)
    requires
        call_ensures(signed_decimal_string, (n,), text),
    ensures
        n >= 0 ==> is_decimal(text@) && number_of(text@) == n,
        n < 0 ==> text@.len() > 0 && text@[0] == '-' && is_decimal(text@.skip(1)) && number_of(
            text@.skip(1),
        ) == -n,
{
    law_signed_decimal_stands_for_its_number(n as int);
}

/// The decimal form of a number with a sign stands for it.
pub proof fn law_signed_decimal_stands_for_its_number(n: int)
    ensures
        n >= 0 ==> is_decimal(signed_decimal(n)) && number_of(signed_decimal(n)) == n,
        n < 0 ==> signed_decimal(n).len() > 0 && signed_decimal(n)[0] == '-' && is_decimal(
            signed_decimal(n).skip(1),
        ) && number_of(signed_decimal(n).skip(1)) == -n,
{
    reveal_strlit("-");
    if n >= 0 {
        law_decimal_stands_for_its_number(n as nat);
    } else {
        law_decimal_stands_for_its_number((-n) as nat);
        assert(signed_decimal(n).skip(1) =~= decimal((-n) as nat));
    }
}

/// The 16-bit units of a text: a character of more than 16 bits takes two surrogates.
pub open spec fn units_of(text: Seq<char>) -> Seq<int>
    decreases text.len(),
{
    if text.len() == 0 {
        Seq::empty()
    } else {
        let c = text[0] as int;
        let rest = units_of(text.drop_first());
        if c < 0x10000 {
            seq![c] + rest
        } else {
            seq![0xd800 + (c - 0x10000) / 0x400, 0xdc00 + (c - 0x10000) % 0x400] + rest
        }
    }
}

/// A text in UTF-16, the upper half of each unit first where `big` is set.
pub open spec fn encode_utf16(text: Seq<char>, big: bool) -> Seq<u8> {
    let units = units_of(text);
    Seq::new(
        2 * units.len(),
        |i: int|
            if (i % 2 == 0) == big {
                (units[i / 2] / 0x100) as u8
            } else {
                (units[i / 2] % 0x100) as u8
            },
    )
}

proof fn lemma_char(c: char)
    ensures
        0 <= c as int <= 0x10ffff,
        !(0xd800 <= c as int <= 0xdfff),
        (c as int) as char == c,
{
    vstd::utf8::char_is_scalar(c);
    vstd::utf8::char_u32_cast(c, c as u32);
}

proof fn lemma_units_of(text: Seq<char>)
    ensures
        forall|i: int| 0 <= i < units_of(text).len() ==> 0 <= #[trigger] units_of(text)[i] < 0x10000,
        utf16_chars(units_of(text)) == Some(text),
    decreases text.len(),
{
    let units = units_of(text);
    if text.len() > 0 {
        let rest = units_of(text.drop_first());
        let c = text[0] as int;
        lemma_units_of(text.drop_first());
        lemma_char(text[0]);
        if c < 0x10000 {
            assert(units.skip(1) =~= rest);
            assert(seq![units[0] as char] + text.drop_first() =~= text);
        } else {
            assert(units.skip(2) =~= rest);
            let pair = (0x10000 + (units[0] - 0xd800) * 0x400 + (units[1] - 0xdc00)) as char;
            assert(pair == text[0]);
            assert(seq![pair] + text.drop_first() =~= text);
        }
        assert forall|i: int| 0 <= i < units.len() implies 0 <= #[trigger] units[i] < 0x10000 by {
            if c < 0x10000 {
                if i > 0 {
                    assert(units[i] == rest[i - 1]);
                }
            } else if i > 1 {
                assert(units[i] == rest[i - 2]);
            }
        }
    } else {
        assert(text =~= Seq::empty());
    }
}

proof fn lemma_chars_of(units: Seq<int>)
    requires
        forall|i: int| 0 <= i < units.len() ==> 0 <= #[trigger] units[i] < 0x10000,
    ensures
        utf16_chars(units) matches Some(text) ==> units_of(text) == units,
    decreases units.len(),
{
    if units.len() > 0 && utf16_chars(units) is Some {
        let text = utf16_chars(units).unwrap();
        if units.len() >= 2 && 0xd800 <= units[0] < 0xdc00 && 0xdc00 <= units[1] < 0xe000 {
            assert forall|i: int| 0 <= i < units.skip(2).len() implies 0
                <= #[trigger] units.skip(2)[i] < 0x10000 by {
                assert(units.skip(2)[i] == units[i + 2]);
            }
            lemma_chars_of(units.skip(2));
            let rest = utf16_chars(units.skip(2)).unwrap();
            assert(text.drop_first() =~= rest);
            assert(text[0] as int == 0x10000 + (units[0] - 0xd800) * 0x400 + (units[1] - 0xdc00));
            assert(units_of(text) =~= units);
        } else {
            assert forall|i: int| 0 <= i < units.skip(1).len() implies 0
                <= #[trigger] units.skip(1)[i] < 0x10000 by {
                assert(units.skip(1)[i] == units[i + 1]);
            }
            lemma_chars_of(units.skip(1));
            let rest = utf16_chars(units.skip(1)).unwrap();
            assert(text.drop_first() =~= rest);
            assert(text[0] as int == units[0]);
            assert(units_of(text) =~= units);
        }
    }
}

proof fn lemma_utf16(bytes: Seq<u8>, text: Seq<char>, big: bool)
    ensures
        utf16_text(bytes, big) == Some(text) <==> bytes == encode_utf16(text, big),
{
    let units = utf16_units(bytes, big);
    lemma_units_of(text);
    if bytes == encode_utf16(text, big) {
        assert(units =~= units_of(text)) by {
            assert forall|i: int| 0 <= i < units.len() implies units[i] == units_of(text)[i] by {
                assert(0 <= units_of(text)[i] < 0x10000);
                assert((2 * i) / 2 == i && (2 * i + 1) / 2 == i);
                assert((2 * i) % 2 == 0 && (2 * i + 1) % 2 == 1);
            }
        }
    }
    if utf16_text(bytes, big) == Some(text) {
        assert forall|i: int| 0 <= i < units.len() implies 0 <= #[trigger] units[i] < 0x10000 by {}
        lemma_chars_of(units);
        let encoded = encode_utf16(text, big);
        assert(bytes =~= encoded) by {
            assert forall|i: int| 0 <= i < bytes.len() implies bytes[i] == encoded[i] by {
                let k = i / 2;
                assert(0 <= k < units.len());
                assert(i == 2 * k || i == 2 * k + 1);
                assert(units[k] == units_of(text)[k]);
            }
        }
    }
}

proof fn lemma_utf8(bytes: Seq<u8>, text: Seq<char>)
    ensures
        utf8_text(bytes) == Some(text) <==> bytes == encode_utf8(text),
{
    law_utf8_is_read_as_itself(text);
    if valid_utf8(bytes) {
        vstd::utf8::decode_utf8_encode_utf8(bytes);
    }
}

/// A string that is known to be in UTF-8 is read as `text` exactly if it is the encoding of
/// `text`.
pub proof fn law_utf8_is_read_exactly(bytes: &Vec<u8>, read: Option<String>, text: Seq<char>)
    requires
        call_ensures(read_text, (bytes, Codec::Utf8), read),
    ensures
        (read matches Some(string) && string@ == text) <==> bytes@ == encode_utf8(text),
{
    lemma_utf8(bytes@, text);
}

/// Whether `bytes` are `text` in ASCII, or in an encoding that a byte order mark in front of it
/// tells.
pub open spec fn encodes(bytes: Seq<u8>, text: Seq<char>) -> bool {
    ||| is_ascii_chars(text) && bytes == encode_utf8(text)
    ||| bytes == seq![0xefu8, 0xbb, 0xbf] + encode_utf8(text)
    ||| bytes == seq![0xfeu8, 0xff] + encode_utf16(text, true)
    ||| bytes == seq![0xffu8, 0xfe] + encode_utf16(text, false)
}

proof fn lemma_ascii(bytes: Seq<u8>, text: Seq<char>)
    ensures
        is_ascii_chars(text) && bytes == encode_utf8(text) ==> (forall|i: int|
            0 <= i < bytes.len() ==> #[trigger] bytes[i] < 0x80),
        (forall|i: int| 0 <= i < bytes.len() ==> #[trigger] bytes[i] < 0x80) && text == Seq::new(
            bytes.len(),
            |i: int| bytes[i] as char,
        ) ==> is_ascii_chars(text) && bytes == encode_utf8(text),
{
    if is_ascii_chars(text) {
        vstd::utf8::is_ascii_chars_encode_utf8(text);
        let encoded = encode_utf8(text);
        assert(encoded =~= Seq::new(text.len(), |i: int| text[i] as u8));
        assert forall|i: int| 0 <= i < encoded.len() implies #[trigger] encoded[i] < 0x80 by {
            assert(0 <= text[i] as int <= 127);
        }
    }
    if (forall|i: int| 0 <= i < bytes.len() ==> #[trigger] bytes[i] < 0x80) && text == Seq::new(
        bytes.len(),
        |i: int| bytes[i] as char,
    ) {
        assert forall|i: int| 0 <= i < text.len() implies 0 <= #[trigger] text[i] as int <= 127 by {
            assert(bytes[i] < 0x80);
        }
        assert(is_ascii_chars(text));
        vstd::utf8::is_ascii_chars_encode_utf8(text);
        assert(encode_utf8(text) =~= bytes);
    }
}

/// A string of unknown encoding is read as `text` exactly if it is `text` in ASCII, or behind a
/// byte order mark in the encoding that the mark tells.
pub proof fn law_marked_text_is_read_exactly(bytes: &Vec<u8>, read: Option<String>, text: Seq<char>)
    requires
        call_ensures(read_text, (bytes, Codec::Marked), read),
    ensures
        (read matches Some(string) && string@ == text) <==> encodes(bytes@, text),
{
    let b = bytes@;
    lemma_utf8(b.skip(3), text);
    lemma_utf16(b.skip(2), text, true);
    lemma_utf16(b.skip(2), text, false);
    lemma_ascii(b, text);
    assert(marked_text(b) == Some(text) <==> encodes(b, text)) by {
        let utf8 = seq![0xefu8, 0xbb, 0xbf];
        let big = seq![0xfeu8, 0xff];
        let little = seq![0xffu8, 0xfe];
        assert((utf8 + encode_utf8(text)).skip(3) =~= encode_utf8(text));
        assert((big + encode_utf16(text, true)).skip(2) =~= encode_utf16(text, true));
        assert((little + encode_utf16(text, false)).skip(2) =~= encode_utf16(text, false));
        if b == utf8 + encode_utf8(text) {
            assert(utf8.is_prefix_of(b));
        }
        if b == big + encode_utf16(text, true) {
            assert(b[0] == 0xfe && b[1] == 0xff);
            assert(big.is_prefix_of(b));
        }
        if b == little + encode_utf16(text, false) {
            assert(b[0] == 0xff && b[1] == 0xfe);
            assert(little.is_prefix_of(b));
        }
        if is_ascii_chars(text) && b == encode_utf8(text) {
            law_ascii_is_read_as_itself(text);
        }
        if marked_text(b) == Some(text) {
            if utf8.is_prefix_of(b) {
                assert(utf8 + b.skip(3) =~= b);
            } else if big.is_prefix_of(b) {
                assert(big + b.skip(2) =~= b);
            } else if little.is_prefix_of(b) {
                assert(little + b.skip(2) =~= b);
            }
        }
    }
}

/// Every machine word can be read and written in each of its formats, and any two values can be
/// compared unless both are nodes.
pub proof fn law_values_can_be_exchanged(format: MpvFormat, word: u64, a: &Data, b: &Data)
    ensures
        format is Flag || format is Int64 || format is Double ==> call_requires(
            Data::from_raw,
            (format, word),
        ),
        a is Flag || a is Int64 || a is Double ==> call_requires(Data::to_raw, (a,)),
        !(a is Node && b is Node) ==> call_requires(Data::equals, (a, b)),
{
}

} // verus!
