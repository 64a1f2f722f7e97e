use gmsv_async_stdout::platform::{con_debuglog_signature, console_print_signature, Os, Platform, PointerWidth};
use gmsv_async_stdout::signature::{find_signature, hex_digit_value, parse_signature, SignatureError};

#[test]
fn hex_digits() {
    assert_eq!(hex_digit_value(b'0'), Some(0));
    assert_eq!(hex_digit_value(b'9'), Some(9));
    assert_eq!(hex_digit_value(b'A'), Some(10));
    assert_eq!(hex_digit_value(b'f'), Some(15));
    assert_eq!(hex_digit_value(b'g'), None);
    assert_eq!(hex_digit_value(b'?'), None);
}

#[test]
fn parses_bytes_and_wildcards() {
    assert_eq!(
        parse_signature(b"48 89 ? 0f FF"),
        Some(vec![Some(0x48), Some(0x89), None, Some(0x0f), Some(0xff)])
    );
    assert_eq!(parse_signature(b"?"), Some(vec![None]));
}

#[test]
fn rejects_malformed_text() {
    assert_eq!(parse_signature(b""), None);
    assert_eq!(parse_signature(b"48 "), None);
    assert_eq!(parse_signature(b" 48"), None);
    assert_eq!(parse_signature(b"48  89"), None);
    assert_eq!(parse_signature(b"4"), None);
    assert_eq!(parse_signature(b"489"), None);
    assert_eq!(parse_signature(b"4G"), None);
    assert_eq!(parse_signature(b"??"), None);
}

#[test]
fn finds_first_match_with_wildcards() {
    let image = [0x00, 0x48, 0x89, 0x11, 0x48, 0x89, 0x22, 0x48];
    assert_eq!(find_signature(b"48 89 ?", &image), Ok(1));
    assert_eq!(find_signature(b"48 89 22", &image), Ok(4));
    assert_eq!(find_signature(b"?", &image), Ok(0));
}

#[test]
fn reports_not_found_and_malformed() {
    let image = [0x01, 0x02, 0x03];
    assert_eq!(find_signature(b"02 04", &image), Err(SignatureError::NotFound));
    assert_eq!(find_signature(b"01 02 03 ?", &image), Err(SignatureError::NotFound));
    assert_eq!(find_signature(b"01 0", &image), Err(SignatureError::Malformed));
    assert_eq!(find_signature(b"", &image), Err(SignatureError::Malformed));
}

#[test]
fn platform_signatures_are_well_formed() {
    for os in [Os::Windows, Os::Linux] {
        for width in [PointerWidth::Bits32, PointerWidth::Bits64] {
            let p = Platform { os, width };
            let sig = con_debuglog_signature(p);
            let parsed = parse_signature(sig.as_bytes()).unwrap();
            assert_eq!(parsed.len(), sig.split(' ').count());
        }
    }
    for width in [PointerWidth::Bits32, PointerWidth::Bits64] {
        assert!(parse_signature(console_print_signature(width).as_bytes()).is_some());
    }
}

#[test]
fn finds_platform_signature_in_an_image() {
    let sig = console_print_signature(PointerWidth::Bits32);
    let pattern = parse_signature(sig.as_bytes()).unwrap();
    let mut image = vec![0xCCu8; 32];
    image.extend(pattern.iter().map(|b| b.unwrap_or(0x90)));
    image.extend(vec![0xCCu8; 8]);
    assert_eq!(find_signature(sig.as_bytes(), &image), Ok(32));
}
