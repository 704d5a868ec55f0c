use swissdata::fso::communes::{
    AbolitionMode, AdmissionMode, Canton, Dataset, District, DistrictMode, Municipality,
    MunicipalityMode, RowError, RowErrorKind, Status,
};
use swissdata::Date;

const MUNICIPALITY_OK_1: &str =
    "1000\t100\tZZ\t10\tZztown\tZztown\t11\t1\t1\t20\t01.01.2000\t\t\t\t01.01.2000";
const MUNICIPALITY_OK_2: &str =
    "1001\t100\tZZ\t11\tYy\tYy\t12\t0\t2\t21\t05.03.1987\t9\t29\t31.12.2002\t31.12.2002";
const MUNICIPALITY_BAD_MODE: &str =
    "1002\t100\tZZ\t12\tXx\tXx\t99\t1\t3\t20\t01.01.2000\t\t\t\t01.01.2000";

#[test]
fn municipality_rows_with_one_bad_entry_mode() {
    let text = format!(
        "{}\r\n{}\r\n{}\r\n",
        MUNICIPALITY_OK_1, MUNICIPALITY_OK_2, MUNICIPALITY_BAD_MODE
    );
    let ds: Dataset<Municipality> = Dataset::from_text(&text);
    let rows = ds.rows();
    assert_eq!(rows.len(), 3);
    assert!(rows[0].is_ok());
    assert!(rows[1].is_ok());
    let err = rows[2].as_ref().unwrap_err();
    assert_eq!(
        *err,
        RowError { row: 3, kind: RowErrorKind::BadCode { field: 6, code: 99 } }
    );
}

#[test]
fn municipality_fields_decode() {
    let text = format!("{}\r\n", MUNICIPALITY_OK_2);
    let ds: Dataset<Municipality> = Dataset::from_text(&text);
    let rows = ds.rows();
    assert_eq!(rows.len(), 1);
    let m = rows.into_iter().next().unwrap().unwrap();
    assert_eq!(m.hist_id, 1001);
    assert_eq!(m.district_hist_id, 100);
    assert_eq!(m.canton_abbreviation, "ZZ");
    assert_eq!(m.id, 11);
    assert_eq!(m.name, "Yy");
    assert_eq!(m.short_name, "Yy");
    assert_eq!(m.entry_mode, MunicipalityMode::MunicipalityFreeArea);
    assert_eq!(m.status, Status::Tentative);
    let admission = m.admission();
    assert_eq!(admission.number, 2);
    assert_eq!(admission.mode, AdmissionMode::Creation);
    assert_eq!(admission.date, Date { year: 1987, month: 3, day: 5 });
    let abolition = m.abolition().unwrap();
    assert_eq!(abolition.number, 9);
    assert_eq!(abolition.mode, AbolitionMode::Radiation);
    assert_eq!(abolition.date, Date { year: 2002, month: 12, day: 31 });
    assert_eq!(m.date_of_change, Date { year: 2002, month: 12, day: 31 });
}

#[test]
fn municipality_without_abolition_is_active() {
    let text = format!("{}\r\n", MUNICIPALITY_OK_1);
    let ds: Dataset<Municipality> = Dataset::from_text(&text);
    let m = ds.rows().into_iter().next().unwrap().unwrap();
    assert!(m.abolition().is_none());
}

#[test]
fn rows_are_repeatable() {
    let text = format!("{}\r\n{}\r\n", MUNICIPALITY_OK_1, MUNICIPALITY_OK_2);
    let ds: Dataset<Municipality> = Dataset::from_text(&text);
    let first: Vec<u32> = ds.rows().into_iter().map(|r| r.unwrap().hist_id).collect();
    let second: Vec<u32> = ds.rows().into_iter().map(|r| r.unwrap().hist_id).collect();
    assert_eq!(first, vec![1000, 1001]);
    assert_eq!(first, second);
}

#[test]
fn partial_abolition_is_rejected() {
    // Only the abolition number is present: the three fields move as a unit.
    let line = "1002\t100\tZZ\t12\tXx\tXx\t11\t1\t3\t20\t01.01.2000\t9\t\t\t01.01.2000\r\n";
    let ds: Dataset<Municipality> = Dataset::from_text(line);
    let rows = ds.rows();
    assert_eq!(
        *rows[0].as_ref().unwrap_err(),
        RowError { row: 1, kind: RowErrorKind::PartialAbolition }
    );
    // Two of three present: still rejected.
    let line2 = "1002\t100\tZZ\t12\tXx\tXx\t11\t1\t3\t20\t01.01.2000\t9\t29\t\t01.01.2000\r\n";
    let ds2: Dataset<Municipality> = Dataset::from_text(line2);
    assert_eq!(
        *ds2.rows()[0].as_ref().unwrap_err(),
        RowError { row: 1, kind: RowErrorKind::PartialAbolition }
    );
}

#[test]
fn district_partial_abolition_is_rejected() {
    let line = "100\t1\t10\tDname\tDn\t15\t1\t20\t01.01.2000\t\t22\t\t01.01.2000\r\n";
    let ds: Dataset<District> = Dataset::from_text(line);
    assert_eq!(
        *ds.rows()[0].as_ref().unwrap_err(),
        RowError { row: 1, kind: RowErrorKind::PartialAbolition }
    );
}

#[test]
fn canton_decodes() {
    let ds: Dataset<Canton> = Dataset::from_text("1\tZZ\tZztown\t01.01.2000\r\n");
    let c = ds.rows().into_iter().next().unwrap().unwrap();
    assert_eq!(c.id, 1);
    assert_eq!(c.abbreviation, "ZZ");
    assert_eq!(c.name, "Zztown");
    assert_eq!(c.date_of_change, Date { year: 2000, month: 1, day: 1 });
}

#[test]
fn wrong_field_count_is_reported() {
    let ds: Dataset<Canton> = Dataset::from_text("1\tZZ\tZztown\r\n");
    assert_eq!(
        *ds.rows()[0].as_ref().unwrap_err(),
        RowError { row: 1, kind: RowErrorKind::WrongFieldCount { expected: 4, found: 3 } }
    );
}

#[test]
fn bad_integer_is_reported() {
    let ds: Dataset<Canton> = Dataset::from_text("x\tZZ\tZztown\t01.01.2000\r\n");
    assert_eq!(
        *ds.rows()[0].as_ref().unwrap_err(),
        RowError { row: 1, kind: RowErrorKind::BadInteger { field: 0 } }
    );
    // An integer too large for its field width is also rejected.
    let ds2: Dataset<Canton> = Dataset::from_text("256\tZZ\tZztown\t01.01.2000\r\n");
    assert_eq!(
        *ds2.rows()[0].as_ref().unwrap_err(),
        RowError { row: 1, kind: RowErrorKind::BadInteger { field: 0 } }
    );
}

#[test]
fn bad_date_is_reported() {
    let ds: Dataset<Canton> = Dataset::from_text("1\tZZ\tZztown\t31.02.2000\r\n");
    assert_eq!(
        *ds.rows()[0].as_ref().unwrap_err(),
        RowError { row: 1, kind: RowErrorKind::BadDate { field: 3 } }
    );
}

#[test]
fn district_decodes() {
    let line = "100\t1\t10\tDname\tDn\t16\t1\t20\t01.01.2000\t9\t30\t31.12.2002\t31.12.2002\r\n";
    let ds: Dataset<District> = Dataset::from_text(line);
    let d = ds.rows().into_iter().next().unwrap().unwrap();
    assert_eq!(d.hist_id, 100);
    assert_eq!(d.canton_id, 1);
    assert_eq!(d.id, 10);
    assert_eq!(d.name, "Dname");
    assert_eq!(d.short_name, "Dn");
    assert_eq!(d.entry_mode, DistrictMode::CantonWithoutDistricts);
    assert_eq!(d.admission().number, 1);
    assert_eq!(d.admission().mode, AdmissionMode::FirstRegistration);
    let ab = d.abolition().unwrap();
    assert_eq!(ab.mode, AbolitionMode::MutationAnnulled);
}

#[test]
fn district_bad_entry_mode_code() {
    let line = "100\t1\t10\tDname\tDn\t14\t1\t20\t01.01.2000\t\t\t\t01.01.2000\r\n";
    let ds: Dataset<District> = Dataset::from_text(line);
    assert_eq!(
        *ds.rows()[0].as_ref().unwrap_err(),
        RowError { row: 1, kind: RowErrorKind::BadCode { field: 5, code: 14 } }
    );
}

#[test]
fn municipality_bad_status_code() {
    let line = "1000\t100\tZZ\t10\tZztown\tZztown\t11\t2\t1\t20\t01.01.2000\t\t\t\t01.01.2000\r\n";
    let ds: Dataset<Municipality> = Dataset::from_text(line);
    assert_eq!(
        *ds.rows()[0].as_ref().unwrap_err(),
        RowError { row: 1, kind: RowErrorKind::BadCode { field: 7, code: 2 } }
    );
}

#[test]
fn enumeration_codes_are_closed_sets() {
    assert_eq!(Status::from_code(0), Some(Status::Tentative));
    assert_eq!(Status::from_code(1), Some(Status::Final));
    assert_eq!(Status::from_code(2), None);

    assert_eq!(
        MunicipalityMode::from_code(11),
        Some(MunicipalityMode::PoliticalCommune)
    );
    assert_eq!(
        MunicipalityMode::from_code(13),
        Some(MunicipalityMode::CantonalLakePortion)
    );
    assert_eq!(MunicipalityMode::from_code(10), None);
    assert_eq!(MunicipalityMode::from_code(14), None);

    assert_eq!(DistrictMode::from_code(15), Some(DistrictMode::District));
    assert_eq!(DistrictMode::from_code(17), Some(DistrictMode::DistrictFreeArea));
    assert_eq!(DistrictMode::from_code(18), None);

    assert_eq!(AdmissionMode::from_code(20), Some(AdmissionMode::FirstRegistration));
    assert_eq!(AdmissionMode::from_code(25), None);
    assert_eq!(AdmissionMode::from_code(27), Some(AdmissionMode::FormalRenumbering));

    assert_eq!(AbolitionMode::from_code(20), None);
    assert_eq!(AbolitionMode::from_code(25), None);
    assert_eq!(AbolitionMode::from_code(29), Some(AbolitionMode::Radiation));
    assert_eq!(AbolitionMode::from_code(30), Some(AbolitionMode::MutationAnnulled));
}

#[test]
fn enumeration_codes_round_trip() {
    for code in [11u32, 12, 13] {
        assert_eq!(
            MunicipalityMode::from_code(code).unwrap().code() as u32,
            code
        );
    }
    for code in [15u32, 16, 17] {
        assert_eq!(DistrictMode::from_code(code).unwrap().code() as u32, code);
    }
    for code in [20u32, 21, 22, 23, 24, 26, 27] {
        assert_eq!(AdmissionMode::from_code(code).unwrap().code() as u32, code);
    }
    for code in [22u32, 23, 24, 26, 27, 29, 30] {
        assert_eq!(AbolitionMode::from_code(code).unwrap().code() as u32, code);
    }
}

#[test]
fn final_record_without_terminator_still_counts() {
    let ds: Dataset<Canton> = Dataset::from_text("1\tZZ\tZztown\t01.01.2000");
    assert_eq!(ds.rows().len(), 1);
    assert!(ds.rows()[0].is_ok());
}

#[test]
fn empty_text_has_no_rows() {
    let ds: Dataset<Canton> = Dataset::from_text("");
    assert!(ds.rows().is_empty());
}
