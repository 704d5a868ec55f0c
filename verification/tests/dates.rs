use swissdata::date::dd_mm_yyyy;
use swissdata::date::dd_mm_yyyy_option;
use swissdata::Date;

#[test]
fn parse_valid_date() {
    let d = dd_mm_yyyy::deserialize("01.01.2000").unwrap();
    assert_eq!(d, Date { year: 2000, month: 1, day: 1 });
}

#[test]
fn parse_and_reencode_is_identity() {
    for s in [
        "01.01.2000",
        "29.02.2020",
        "31.12.9999",
        "28.02.1900",
        "15.06.0007",
    ] {
        let d = dd_mm_yyyy::deserialize(s).unwrap();
        assert_eq!(dd_mm_yyyy::serialize(&d), s);
    }
}

#[test]
fn reject_unpadded_date() {
    assert!(dd_mm_yyyy::deserialize("1.1.2000").is_err());
    assert!(dd_mm_yyyy::deserialize("01.01.200").is_err());
    assert!(dd_mm_yyyy::deserialize("01.01.20000").is_err());
}

#[test]
fn reject_wrong_separator() {
    assert!(dd_mm_yyyy::deserialize("01-01-2000").is_err());
    assert!(dd_mm_yyyy::deserialize("01.01:2000").is_err());
    assert!(dd_mm_yyyy::deserialize("2000.01.01").is_err());
}

#[test]
fn reject_invalid_calendar_dates() {
    assert!(dd_mm_yyyy::deserialize("31.02.2020").is_err());
    assert!(dd_mm_yyyy::deserialize("29.02.2019").is_err());
    assert!(dd_mm_yyyy::deserialize("00.01.2000").is_err());
    assert!(dd_mm_yyyy::deserialize("01.00.2000").is_err());
    assert!(dd_mm_yyyy::deserialize("01.13.2000").is_err());
    assert!(dd_mm_yyyy::deserialize("32.01.2000").is_err());
    assert!(dd_mm_yyyy::deserialize("31.04.2000").is_err());
}

#[test]
fn leap_year_rules() {
    // Divisible by 4: leap.
    assert!(dd_mm_yyyy::deserialize("29.02.2024").is_ok());
    // Divisible by 100 but not 400: no leap.
    assert!(dd_mm_yyyy::deserialize("29.02.1900").is_err());
    // Divisible by 400: leap.
    assert!(dd_mm_yyyy::deserialize("29.02.2000").is_ok());
}

#[test]
fn format_pads_fields() {
    let d = Date { year: 7, month: 3, day: 9 };
    assert_eq!(dd_mm_yyyy::serialize(&d), "09.03.0007");
}

#[test]
fn optional_date_empty_is_none() {
    assert_eq!(dd_mm_yyyy_option::deserialize("").unwrap(), None);
}

#[test]
fn optional_date_present_is_parsed() {
    let d = dd_mm_yyyy_option::deserialize("13.08.2021").unwrap().unwrap();
    assert_eq!(d, Date { year: 2021, month: 8, day: 13 });
    assert!(dd_mm_yyyy_option::deserialize("13.8.2021").is_err());
}

#[test]
fn optional_date_serializes_back() {
    let d = Date { year: 2021, month: 8, day: 13 };
    assert_eq!(dd_mm_yyyy_option::serialize(&Some(d)), "13.08.2021");
    assert_eq!(dd_mm_yyyy_option::serialize(&None), "");
}
