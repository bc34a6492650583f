//! Numbers, formats, values and text.

use mpv::data::{Data, Double};
use mpv::instance::{read_text, Codec};
use mpv::raw::{MpvError, MpvEventId, MpvFormat, MpvLogLevel, MpvNode};
use mpv::text::{decimal_string, signed_decimal_string};

fn double(number: f64) -> Double {
    Double { bits: number.to_bits() }
}

fn utf8(bytes: &[u8]) -> Option<String> {
    read_text(&bytes.to_vec(), Codec::Utf8)
}

fn marked(bytes: &[u8]) -> Option<String> {
    read_text(&bytes.to_vec(), Codec::Marked)
}

#[test]
fn errors_have_their_numbers() {
    assert_eq!(MpvError::from_i32(0), Some(MpvError::Success));
    assert_eq!(MpvError::from_i32(-1), Some(MpvError::EventQueueFull));
    assert_eq!(MpvError::from_i32(-12), Some(MpvError::Command));
    assert_eq!(MpvError::from_i32(-20), Some(MpvError::Generic));
    assert_eq!(MpvError::from_i32(-21), None);
    assert_eq!(MpvError::from_i32(1), None);
    for code in -20..1 {
        assert_eq!(MpvError::from_i32(code).unwrap().as_val(), code);
    }
}

#[test]
fn kinds_of_events_have_their_numbers() {
    assert_eq!(MpvEventId::from_i32(0), Some(MpvEventId::NoEvent));
    assert_eq!(MpvEventId::from_i32(7), Some(MpvEventId::EndFile));
    assert_eq!(MpvEventId::from_i32(24), Some(MpvEventId::QueueOverflow));
    assert_eq!(MpvEventId::from_i32(25), None);
    assert_eq!(MpvEventId::from_i32(-1), None);
    for number in 0..25 {
        assert_eq!(MpvEventId::from_i32(number).unwrap().as_val(), number);
    }
}

#[test]
fn formats_have_their_numbers() {
    assert_eq!(MpvFormat::from_i32(1), Some(MpvFormat::String));
    assert_eq!(MpvFormat::from_i32(6), Some(MpvFormat::Node));
    assert_eq!(MpvFormat::from_i32(10), None);
    for number in 0..10 {
        assert_eq!(MpvFormat::from_i32(number).unwrap().as_val(), number);
    }
}

#[test]
fn verbosities_have_their_numbers() {
    assert_eq!(MpvLogLevel::from_i32(0), Some(MpvLogLevel::NoLevel));
    assert_eq!(MpvLogLevel::from_i32(30), Some(MpvLogLevel::Warn));
    assert_eq!(MpvLogLevel::from_i32(70), Some(MpvLogLevel::Trace));
    assert_eq!(MpvLogLevel::from_i32(35), None);
}

#[test]
fn data_is_made_of_supported_values() {
    assert!(matches!(Data::new("text".to_string()), Data::String(text) if text == "text"));
    assert!(matches!(Data::new(true), Data::Flag(true)));
    assert!(matches!(Data::new(-3isize), Data::Int64(-3)));
    assert!(matches!(Data::new(double(0.5)), Data::Double(d) if f64::from_bits(d.bits) == 0.5));
    let node = MpvNode { word: 9, format: MpvFormat::Int64 };
    assert!(matches!(Data::new(node), Data::Node(MpvNode { word: 9, format: MpvFormat::Int64 })));
}

#[test]
fn data_has_a_format() {
    assert_eq!(Data::String(String::new()).format(), MpvFormat::String);
    assert_eq!(Data::OsdString(String::new()).format(), MpvFormat::OsdString);
    assert_eq!(Data::Flag(false).format(), MpvFormat::Flag);
    assert_eq!(Data::Int64(0).format(), MpvFormat::Int64);
    assert_eq!(Data::Double(double(1.0)).format(), MpvFormat::Double);
    let node = MpvNode { word: 0, format: MpvFormat::NoFormat };
    assert_eq!(Data::Node(node).format(), MpvFormat::Node);
}

#[test]
fn words_are_read() {
    assert!(matches!(Data::from_raw(MpvFormat::Flag, 0), Data::Flag(false)));
    assert!(matches!(Data::from_raw(MpvFormat::Flag, 2), Data::Flag(true)));
    assert!(matches!(Data::from_raw(MpvFormat::Int64, u64::MAX), Data::Int64(-1)));
    assert!(matches!(Data::from_raw(MpvFormat::Int64, 1 << 63), Data::Int64(i64::MIN)));
    let word = 2.5f64.to_bits();
    assert!(matches!(Data::from_raw(MpvFormat::Double, word), Data::Double(d) if d.bits == word));
}

#[test]
fn words_are_read_as_they_were_written() {
    assert_eq!(Data::Flag(true).to_raw(), 1);
    assert_eq!(Data::Flag(false).to_raw(), 0);
    assert_eq!(Data::Int64(-1).to_raw(), u64::MAX);
    assert_eq!(Data::Double(double(2.5)).to_raw(), 2.5f64.to_bits());
    let values =
        [Data::Flag(true), Data::Int64(i64::MIN), Data::Int64(42), Data::Double(double(-1.5))];
    for value in &values {
        assert!(Data::from_raw(value.format(), value.to_raw()).equals(value));
    }
}

#[test]
fn values_are_equal_within_their_kind() {
    let text = Data::String("a".to_string());
    assert!(text.equals(&text.clone()));
    assert!(!text.equals(&Data::String("b".to_string())));
    assert!(!text.equals(&Data::OsdString("a".to_string())));
    assert!(Data::OsdString("a".to_string()).equals(&Data::OsdString("a".to_string())));
    assert!(Data::Flag(true).equals(&Data::Flag(true)));
    assert!(!Data::Flag(true).equals(&Data::Flag(false)));
    assert!(Data::Int64(1).equals(&Data::Int64(1)));
    assert!(!Data::Int64(1).equals(&Data::Flag(true)));
    let node = Data::Node(MpvNode { word: 1, format: MpvFormat::Flag });
    assert!(!node.equals(&Data::Flag(true)));
    assert!(!Data::Flag(true).equals(&node));
}

#[test]
fn doubles_are_equal_as_numbers() {
    let numbers = [0.0, -0.0, 1.0, -1.0, f64::INFINITY, f64::NEG_INFINITY, f64::NAN, f64::MIN];
    for a in numbers {
        for b in numbers {
            assert_eq!(double(a).equals(&double(b)), a == b, "{} and {}", a, b);
            assert_eq!(Data::Double(double(a)).equals(&Data::Double(double(b))), a == b);
        }
    }
}

#[test]
fn numbers_in_decimal() {
    assert_eq!(decimal_string(0), "0");
    assert_eq!(decimal_string(10), "10");
    assert_eq!(decimal_string(1234567890), "1234567890");
    assert_eq!(decimal_string(u64::MAX), "18446744073709551615");
    assert_eq!(signed_decimal_string(0), "0");
    assert_eq!(signed_decimal_string(-7), "-7");
    assert_eq!(signed_decimal_string(i64::MIN), "-9223372036854775808");
    assert_eq!(signed_decimal_string(i64::MAX), "9223372036854775807");
}

#[test]
fn text_in_utf8() {
    assert_eq!(utf8("トゥッティ！".as_bytes()), Some("トゥッティ！".to_string()));
    assert_eq!(utf8(b""), Some(String::new()));
    assert_eq!(utf8(&[0xff]), None);
    assert_eq!(utf8(&[0xed, 0xa0, 0x80]), None);
    assert_eq!(utf8(&[0xc0, 0x80]), None);
    assert_eq!(utf8(&[0xef, 0xbb, 0xbf, 0x61]), Some("\u{feff}a".to_string()));
}

#[test]
fn text_without_a_mark_is_ascii() {
    assert_eq!(marked(b"plain text"), Some("plain text".to_string()));
    assert_eq!(marked(b""), Some(String::new()));
    assert_eq!(marked(&[0x00, 0x7f]), Some("\u{0}\u{7f}".to_string()));
    assert_eq!(marked(&[0x80]), None);
    assert_eq!(marked("é".as_bytes()), None);
    assert_eq!(marked(&[0xfe]), None);
    assert_eq!(marked(&[0xef, 0xbb]), None);
}

#[test]
fn mark_decides_for_utf8() {
    let mut bytes = vec![0xef, 0xbb, 0xbf];
    assert_eq!(marked(&bytes), Some(String::new()));
    bytes.extend("トゥッティ！ 🎬".as_bytes());
    assert_eq!(marked(&bytes), Some("トゥッティ！ 🎬".to_string()));
    assert_eq!(marked(&[0xef, 0xbb, 0xbf, 0xff]), None);
    assert_eq!(marked(&[0xef, 0xbb, 0xbf, 0xed, 0xa0, 0x80]), None);
    assert_eq!(
        marked(&[0xef, 0xbb, 0xbf, 0xef, 0xbb, 0xbf]),
        Some("\u{feff}".to_string())
    );
}

#[test]
fn mark_decides_for_utf16() {
    assert_eq!(marked(&[0xfe, 0xff]), Some(String::new()));
    assert_eq!(marked(&[0xfe, 0xff, 0x00, 0x61, 0x20, 0xac]), Some("a€".to_string()));
    assert_eq!(marked(&[0xff, 0xfe, 0x61, 0x00, 0xac, 0x20]), Some("a€".to_string()));
    assert_eq!(
        marked(&[0xfe, 0xff, 0xd8, 0x3c, 0xdf, 0xac, 0x00, 0x62]),
        Some("🎬b".to_string())
    );
    assert_eq!(
        marked(&[0xff, 0xfe, 0x3c, 0xd8, 0xac, 0xdf, 0x62, 0x00]),
        Some("🎬b".to_string())
    );
    assert_eq!(
        marked(&[0xfe, 0xff, 0xdb, 0xff, 0xdf, 0xff]),
        Some("\u{10ffff}".to_string())
    );
    assert_eq!(marked(&[0xfe, 0xff, 0xfe, 0xff]), Some("\u{feff}".to_string()));
}

#[test]
fn broken_utf16_has_no_text() {
    assert_eq!(marked(&[0xfe, 0xff, 0x00]), None);
    assert_eq!(marked(&[0xff, 0xfe, 0x61, 0x00, 0x62]), None);
    assert_eq!(marked(&[0xfe, 0xff, 0xd8, 0x00]), None);
    assert_eq!(marked(&[0xfe, 0xff, 0xdc, 0x00]), None);
    assert_eq!(marked(&[0xfe, 0xff, 0xd8, 0x00, 0x00]), None);
    assert_eq!(marked(&[0xfe, 0xff, 0xd8, 0x00, 0x00, 0x61]), None);
    assert_eq!(marked(&[0xfe, 0xff, 0xd8, 0x00, 0xd8, 0x00, 0xdc, 0x00]), None);
    assert_eq!(marked(&[0xff, 0xfe, 0x00, 0xdc, 0x00, 0xd8]), None);
}
