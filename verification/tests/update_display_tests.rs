use tac_lookup::db::{DbInfo, TacRecord};
use tac_lookup::display::{age_label, days_old, result_view, AgeLabel, DeviceLine, LuhnLine};
use tac_lookup::imei::lookup;
use tac_lookup::text::{decimal_string, digit_to_char, string_from_prefix};
use tac_lookup::updater::{is_stale, run, UpdateOutcome, UpdatePlan, STALE_AFTER_SECS};

#[test]
fn staleness_threshold_is_seven_days() {
    assert_eq!(STALE_AFTER_SECS, 604800);
    assert!(is_stale(None));
    assert!(!is_stale(Some(0)));
    assert!(!is_stale(Some(604799)));
    assert!(is_stale(Some(604800)));
    assert!(is_stale(Some(u64::MAX)));
}

#[test]
fn update_plans() {
    assert_eq!(run(false, Some(10)), UpdatePlan::KeepExisting);
    assert_eq!(run(true, Some(10)), UpdatePlan::Download);
    assert_eq!(run(false, None), UpdatePlan::Download);
    assert_eq!(run(false, Some(604800)), UpdatePlan::Download);
    let o = UpdateOutcome::of_plan(UpdatePlan::KeepExisting, 42);
    assert_eq!(o, UpdateOutcome { record_count: 42, ran: false });
    let o = UpdateOutcome::of_plan(UpdatePlan::Download, 7);
    assert!(o.ran);
}

#[test]
fn age_labels() {
    assert_eq!(age_label(100, 100), AgeLabel::Minutes(0));
    assert_eq!(age_label(3599, 0), AgeLabel::Minutes(59));
    assert_eq!(age_label(3600, 0), AgeLabel::Hours(1));
    assert_eq!(age_label(86399, 0), AgeLabel::Hours(23));
    assert_eq!(age_label(86400, 0), AgeLabel::Days(1));
    assert_eq!(age_label(10, 500), AgeLabel::Minutes(0));
    assert_eq!(AgeLabel::Hours(3).text(), "3 hour(s) ago");
    assert_eq!(AgeLabel::Minutes(0).text(), "0 minute(s) ago");
    assert_eq!(AgeLabel::Days(120).text(), "120 day(s) ago");
    assert_eq!(days_old(86400 * 3 + 5), 3);
    assert_eq!(days_old(86399), 0);
}

#[test]
fn decimal_rendering() {
    assert_eq!(decimal_string(0), "0");
    assert_eq!(decimal_string(120), "120");
    assert_eq!(decimal_string(u64::MAX), "18446744073709551615");
    assert_eq!(digit_to_char(7), '7');
    assert_eq!(string_from_prefix(&vec!['a', 'b', 'c'], 2), "ab");
}

#[test]
fn db_info_labels() {
    let info = DbInfo { path: std::path::PathBuf::from("/tmp/x"), record_count: 3, last_updated: Some(1000) };
    assert_eq!(info.updated_label(1000 + 7200), Some(AgeLabel::Hours(2)));
    let never = DbInfo { path: std::path::PathBuf::from("/tmp/x"), record_count: 0, last_updated: None };
    assert_eq!(never.updated_label(5), None);
}

fn record() -> TacRecord {
    TacRecord {
        tac: "49015420".to_string(),
        brand: "Acme".to_string(),
        model: "Phone".to_string(),
        date: None,
        gsmarena: None,
        phonearena: None,
        phonedb: None,
    }
}

#[test]
fn result_views() {
    let r = lookup("490154203237518", false);
    let v = result_view(&r, false);
    assert!(v.imei_valid);
    assert!(v.show_tac);
    assert!(matches!(v.luhn, LuhnLine::Valid));
    assert_eq!(v.device, DeviceLine::NotFound);

    let mut r = lookup("490154203237518", true);
    r.device = Some(record());
    let v = result_view(&r, true);
    assert!(matches!(v.luhn, LuhnLine::Skipped));
    assert_eq!(v.device, DeviceLine::Found);

    let r = lookup("49015420", false);
    let v = result_view(&r, false);
    assert!(matches!(v.luhn, LuhnLine::Hidden));

    let r = lookup("490154203237519", false);
    let v = result_view(&r, false);
    assert!(!v.imei_valid);
    match v.luhn {
        LuhnLine::Failed(m) => assert_eq!(m, "Luhn check failed — IMEI may be invalid"),
        _ => panic!("expected a failure line"),
    }

    let r = lookup("123", false);
    let v = result_view(&r, false);
    assert!(!v.show_tac);
    assert_eq!(v.device, DeviceLine::Hidden);
    assert!(matches!(v.luhn, LuhnLine::Failed(_)));
}

#[test]
fn readme_example_shows_date_and_phonearena() {
    let mut r = lookup("355394074211242", false);
    assert!(r.valid);
    assert_eq!(r.tac, "35539407");
    r.device = Some(TacRecord {
        tac: "35539407".to_string(),
        brand: "Apple".to_string(),
        model: "iPhone 6".to_string(),
        date: Some("2017-10-05 08:51:46".to_string()),
        gsmarena: None,
        phonearena: Some("http://www.phonearena.com/phones/Apple-iPhone-6_id8346".to_string()),
        phonedb: None,
    });
    let v = result_view(&r, false);
    assert!(v.imei_valid);
    assert!(v.show_tac);
    assert!(matches!(v.luhn, LuhnLine::Valid));
    assert_eq!(v.device, DeviceLine::Found);
    assert!(v.show_date);
    assert!(v.show_phonearena);

    r.device = Some(record());
    let v = result_view(&r, false);
    assert!(!v.show_date);
    assert!(!v.show_phonearena);
}
