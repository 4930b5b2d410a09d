use tac_lookup::imei::{digit_chars, lookup, luhn_valid, parse, ImeiError};

#[test]
fn parse_full_imei() {
    let p = parse("490154203237518").unwrap();
    assert_eq!(p.tac, "49015420");
    assert!(p.is_full_imei);
}

#[test]
fn parse_tac_only() {
    let p = parse("49015420").unwrap();
    assert_eq!(p.tac, "49015420");
    assert!(!p.is_full_imei);
}

#[test]
fn parse_strips_separators() {
    let p = parse("490154-2032-37518").unwrap();
    assert_eq!(p.normalized, "490154203237518");
}

#[test]
fn parse_bad_length() {
    assert!(parse("12345").is_err());
}

#[test]
fn luhn_known_valid() {
    // 490154203237518 is the canonical Luhn-valid test IMEI
    assert!(luhn_valid("490154203237518"));
}

#[test]
fn luhn_known_invalid() {
    assert!(!luhn_valid("490154203237519"));
}

#[test]
fn parse_error_counts_digits() {
    let e = parse("12345").unwrap_err();
    assert_eq!(e, ImeiError::DigitCount { found: 5 });
    assert_eq!(e.message(), "Expected a 15-digit IMEI or 8-digit TAC, got 5 digits");
    let e = parse("").unwrap_err();
    assert_eq!(e.message(), "Expected a 15-digit IMEI or 8-digit TAC, got 0 digits");
    let e = parse("4901542032375181234").unwrap_err();
    assert_eq!(e, ImeiError::DigitCount { found: 19 });
    assert_eq!(e.message(), "Expected a 15-digit IMEI or 8-digit TAC, got 19 digits");
}

#[test]
fn parse_ignores_non_ascii_and_letters() {
    let p = parse("IMEI: 49 01 54 20 — ok").unwrap();
    assert_eq!(p.normalized, "49015420");
    assert_eq!(p.tac, "49015420");
    assert!(!p.is_full_imei);
    assert_eq!(parse("٤٩٠١٥٤٢٠").unwrap_err(), ImeiError::DigitCount { found: 0 });
}

#[test]
fn parse_nine_and_fourteen_digits_fail() {
    assert_eq!(parse("490154203").unwrap_err(), ImeiError::DigitCount { found: 9 });
    assert_eq!(parse("49015420323751").unwrap_err(), ImeiError::DigitCount { found: 14 });
}

#[test]
fn digit_chars_keeps_order() {
    assert_eq!(digit_chars("a1b2-3 "), vec!['1', '2', '3']);
    assert!(digit_chars("abc").is_empty());
}

#[test]
fn luhn_needs_fifteen_digits() {
    assert!(!luhn_valid("49015420"));
    assert!(!luhn_valid("4901542032375180"));
    assert!(luhn_valid("49-0154-2032-37518"));
    assert!(luhn_valid("000000000000000"));
    assert!(!luhn_valid("000000000000001"));
}

#[test]
fn luhn_known_values() {
    // doubled digits 5..9 wrap around: 5 -> 1, 9 -> 9
    assert!(luhn_valid("355394074211242"));
    assert!(luhn_valid("000000000000059"));
    assert!(!luhn_valid("000000000000050"));
}

#[test]
fn lookup_valid_imei() {
    let r = lookup("490154203237518", false);
    assert_eq!(r.imei, "490154203237518");
    assert_eq!(r.tac, "49015420");
    assert!(r.valid);
    assert!(r.is_full_imei);
    assert!(r.validation_error.is_none());
    assert!(r.device.is_none());
}

#[test]
fn lookup_luhn_failure() {
    let r = lookup("490154203237519", false);
    assert_eq!(r.imei, "490154203237519");
    assert_eq!(r.tac, "49015420");
    assert!(!r.valid);
    assert!(r.is_full_imei);
    assert_eq!(r.validation_error.as_deref(), Some("Luhn check failed — IMEI may be invalid"));
}

#[test]
fn lookup_skip_luhn() {
    let r = lookup("490154203237519", true);
    assert!(r.valid);
    assert!(r.validation_error.is_none());
}

#[test]
fn lookup_bare_tac_is_valid() {
    let r = lookup("4901-5420", false);
    assert_eq!(r.imei, "49015420");
    assert_eq!(r.tac, "49015420");
    assert!(r.valid);
    assert!(!r.is_full_imei);
    assert!(r.validation_error.is_none());
}

#[test]
fn lookup_bad_input_keeps_raw_text() {
    let r = lookup("12-345", false);
    assert_eq!(r.imei, "12-345");
    assert_eq!(r.tac, "");
    assert!(!r.valid);
    assert!(r.is_full_imei);
    assert_eq!(
        r.validation_error.as_deref(),
        Some("Expected a 15-digit IMEI or 8-digit TAC, got 5 digits")
    );
    assert!(r.device.is_none());
}
