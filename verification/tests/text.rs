//! Tests of the text helpers: UTF-16 decoding and decimal rendering.

use auto_splitter::text::bytes_eq;
use auto_splitter::text::i32_to_dec;
use auto_splitter::text::u32_to_dec;
use auto_splitter::text::u64_to_dec;
use auto_splitter::text::u64_to_dec_pad;
use auto_splitter::text::utf16_to_string;
use auto_splitter::text::utf16_units;

#[test]
fn utf16_units_pairs_bytes_little_endian() {
    assert_eq!(
        utf16_units(&vec![0x41, 0x00, 0x42, 0x00, 0x00, 0xD8]),
        vec![0x0041, 0x0042, 0xD800]
    );
    assert_eq!(utf16_units(&vec![]), Vec::<u16>::new());
    // an odd trailing byte is dropped
    assert_eq!(utf16_units(&vec![0x41, 0x00, 0x7F]), vec![0x0041]);
}

#[test]
fn utf16_decodes_basic_text() {
    assert_eq!(utf16_to_string(&vec![0x0048, 0x0069, 0x0021]), "Hi!");
    assert_eq!(utf16_to_string(&vec![]), "");
    // beyond ASCII
    assert_eq!(utf16_to_string(&vec![0x00E9, 0x4F60]), "\u{E9}\u{4F60}");
}

#[test]
fn utf16_decodes_surrogate_pairs() {
    // U+1F3AE as the pair D83C DFAE
    assert_eq!(utf16_to_string(&vec![0xD83C, 0xDFAE]), "\u{1F3AE}");
}

#[test]
fn utf16_replaces_unpaired_surrogates() {
    assert_eq!(utf16_to_string(&vec![0xD800]), "\u{FFFD}");
    assert_eq!(utf16_to_string(&vec![0xDC00, 0x0041]), "\u{FFFD}A");
    // a high surrogate followed by a non-low unit loses only itself
    assert_eq!(utf16_to_string(&vec![0xD800, 0x0041]), "\u{FFFD}A");
}

#[test]
fn decimal_rendering() {
    assert_eq!(u32_to_dec(0), "0");
    assert_eq!(u32_to_dec(8), "8");
    assert_eq!(u32_to_dec(90210), "90210");
    assert_eq!(u32_to_dec(u32::MAX), "4294967295");
    assert_eq!(u64_to_dec(u64::MAX), "18446744073709551615");
    assert_eq!(i32_to_dec(-1), "-1");
    assert_eq!(i32_to_dec(i32::MIN), "-2147483648");
    assert_eq!(i32_to_dec(7), "7");
}

#[test]
fn padded_decimal_rendering() {
    assert_eq!(u64_to_dec_pad(7, 4), "0007");
    assert_eq!(u64_to_dec_pad(12345, 4), "12345");
    assert_eq!(u64_to_dec_pad(59, 2), "59");
    assert_eq!(u64_to_dec_pad(0, 0), "0");
}

#[test]
fn byte_string_equality() {
    assert!(bytes_eq(b"Celeste", b"Celeste"));
    assert!(!bytes_eq(b"Celeste", b"Celesta"));
    assert!(!bytes_eq(b"Celeste", b"Celest"));
    assert!(bytes_eq(b"", b""));
}
