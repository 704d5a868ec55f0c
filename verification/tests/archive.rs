use std::io::{Cursor, Write};

use swissdata::fso::communes::{
    datastore, member_code, resolve_member, AdmissionMode, LoadError,
};
use swissdata::Date;

fn build_archive(members: &[(&str, &[u8])]) -> Vec<u8> {
    let mut writer = zip::ZipWriter::new(Cursor::new(Vec::new()));
    let options = zip::write::SimpleFileOptions::default();
    for (name, data) in members {
        writer.start_file(*name, options).unwrap();
        writer.write_all(data).unwrap();
    }
    writer.finish().unwrap().into_inner()
}

const KT_NAME: &str = "dz-b-00.04-hgv-01/1.2/20250101_gdehist_KT.txt";
const BEZ_NAME: &str = "dz-b-00.04-hgv-01/1.2/20250101_gdehist_BEZ.txt";
const GDE_NAME: &str = "dz-b-00.04-hgv-01/1.2/20250101_gdehist_GDE.txt";

const KT_ROW: &[u8] = b"1\tZZ\tZzt\xF6wn\t01.01.2000\r\n";
const BEZ_ROW: &[u8] = b"100\t1\t10\tZzdistrict\tZzd\t15\t1\t20\t01.01.2000\t\t\t\t01.01.2000\r\n";
const GDE_ROW: &[u8] =
    b"1000\t100\tZZ\t10\tZztown\tZztown\t11\t1\t1\t20\t01.01.2000\t\t\t\t01.01.2000\r\n";

#[test]
fn load_minimal_archive_end_to_end() {
    let bytes = build_archive(&[(KT_NAME, KT_ROW), (BEZ_NAME, BEZ_ROW), (GDE_NAME, GDE_ROW)]);
    let store = datastore();
    let ds = store.load_from_bytes(bytes).unwrap();

    let cantons: Vec<_> = ds.cantons.rows().into_iter().map(|r| r.unwrap()).collect();
    assert_eq!(cantons.len(), 1);
    assert_eq!(cantons[0].id, 1);
    assert_eq!(cantons[0].abbreviation, "ZZ");
    // The member bytes are in the legacy single-byte encoding: 0xF6 is o
    // with a diaeresis there, never a raw byte passed through.
    assert_eq!(cantons[0].name, "Zzt\u{f6}wn");

    let districts: Vec<_> = ds.districts.rows().into_iter().map(|r| r.unwrap()).collect();
    assert_eq!(districts.len(), 1);
    assert_eq!(districts[0].hist_id, 100);
    assert_eq!(districts[0].canton_id, 1);
    assert_eq!(districts[0].id, 10);
    assert!(districts[0].abolition().is_none(), "district must be active");

    let municipalities: Vec<_> =
        ds.municipalities.rows().into_iter().map(|r| r.unwrap()).collect();
    assert_eq!(municipalities.len(), 1);
    let m = &municipalities[0];
    assert_eq!(m.hist_id, 1000);
    assert_eq!(m.district_hist_id, 100);
    assert!(m.abolition().is_none(), "municipality must be active");
    let admission = m.admission();
    assert_eq!(admission.mode, AdmissionMode::FirstRegistration);
    assert_eq!(admission.date, Date { year: 2000, month: 1, day: 1 });
}

#[test]
fn missing_member_is_reported_with_its_code() {
    let bytes = build_archive(&[(KT_NAME, KT_ROW), (BEZ_NAME, BEZ_ROW)]);
    let err = datastore().load_from_bytes(bytes).unwrap_err();
    match err {
        LoadError::MissingMember(code) => assert_eq!(code, "GDE"),
        other => panic!("expected a missing member error, got {:?}", other),
    }
}

#[test]
fn first_missing_code_wins() {
    let bytes = build_archive(&[(GDE_NAME, GDE_ROW)]);
    let err = datastore().load_from_bytes(bytes).unwrap_err();
    match err {
        LoadError::MissingMember(code) => assert_eq!(code, "KT"),
        other => panic!("expected a missing member error, got {:?}", other),
    }
}

#[test]
fn garbage_bytes_are_an_archive_error() {
    let err = datastore().load_from_bytes(vec![1, 2, 3, 4]).unwrap_err();
    assert!(matches!(err, LoadError::Archive(_)));
}

#[test]
fn member_code_follows_naming_convention() {
    let name: Vec<char> = KT_NAME.chars().collect();
    let code = member_code(&name).unwrap();
    let code: String = code.into_iter().collect();
    assert_eq!(code, "KT");

    // Wrong prefix, wrong suffix, or too few segments: no code.
    let other: Vec<char> = "other/1.2/20250101_gdehist_KT.txt".chars().collect();
    assert!(member_code(&other).is_none());
    let xml: Vec<char> = "dz-b-00.04-hgv-01/1.2/20250101_gdehist_KT.xml".chars().collect();
    assert!(member_code(&xml).is_none());
    let two_segments: Vec<char> = "dz-b-00.04-hgv-01/1.2/gdehist_KT.txt".chars().collect();
    assert!(member_code(&two_segments).is_none());
    let one_segment: Vec<char> = "dz-b-00.04-hgv-01/1.2/gdehist.txt".chars().collect();
    assert!(member_code(&one_segment).is_none());
}

#[test]
fn resolve_member_present_and_absent_codes() {
    let names: Vec<String> = vec![
        KT_NAME.to_string(),
        BEZ_NAME.to_string(),
        "readme.md".to_string(),
    ];
    assert_eq!(resolve_member(&names, "KT").unwrap(), KT_NAME);
    assert_eq!(resolve_member(&names, "BEZ").unwrap(), BEZ_NAME);
    match resolve_member(&names, "GDE").unwrap_err() {
        LoadError::MissingMember(code) => assert_eq!(code, "GDE"),
        other => panic!("expected a missing member error, got {:?}", other),
    }
}

#[test]
fn later_member_with_same_code_wins() {
    let earlier = "dz-b-00.04-hgv-01/1.2/20240101_gdehist_KT.txt";
    let names: Vec<String> = vec![earlier.to_string(), KT_NAME.to_string()];
    assert_eq!(resolve_member(&names, "KT").unwrap(), KT_NAME);
}
