use tac_lookup::imei::{luhn_valid, parse};

const VALID: &str = "490154203237518";

#[test]
fn every_single_digit_change_is_detected() {
    let base: Vec<char> = VALID.chars().collect();
    for i in 0..15 {
        for d in '0'..='9' {
            if d == base[i] {
                continue;
            }
            let mut changed = base.clone();
            changed[i] = d;
            let s: String = changed.into_iter().collect();
            assert!(!luhn_valid(&s), "{} passed", s);
        }
    }
}

#[test]
fn check_digit_is_unique() {
    let body = "49015420323751";
    let passing: Vec<char> = ('0'..='9')
        .filter(|d| luhn_valid(&format!("{}{}", body, d)))
        .collect();
    assert_eq!(passing, vec!['8']);
}

#[test]
fn separators_do_not_change_parse() {
    let a = parse("490154203237518").unwrap();
    let b = parse(" 49/0154 2032 37518x").unwrap();
    assert_eq!(a.normalized, b.normalized);
    assert_eq!(a.tac, b.tac);
    assert_eq!(a.is_full_imei, b.is_full_imei);
    assert_eq!(luhn_valid("490154203237518"), luhn_valid(" 49/0154 2032 37518x"));
}

#[test]
fn normalized_parses_to_itself() {
    let a = parse("49-0154-2032-37518").unwrap();
    let b = parse(&a.normalized).unwrap();
    assert_eq!(a.normalized, b.normalized);
    assert_eq!(a.tac, b.tac);
    assert_eq!(a.is_full_imei, b.is_full_imei);
}
