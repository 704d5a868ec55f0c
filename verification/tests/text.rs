use swissdata::chars::{chars_to_string, str_chars};
use swissdata::tsv::{fields, parse_u16, parse_u32, parse_u8, records};

#[test]
fn integer_fields_are_bounded_decimals() {
    let digits = str_chars("4294967295");
    assert_eq!(parse_u32(digits.as_slice()), Some(u32::MAX));
    let over = str_chars("4294967296");
    assert_eq!(parse_u32(over.as_slice()), None);
    let way_over = str_chars("999999999999999999999999");
    assert_eq!(parse_u32(way_over.as_slice()), None);
    let empty = str_chars("");
    assert_eq!(parse_u32(empty.as_slice()), None);
    let signed = str_chars("+12");
    assert_eq!(parse_u32(signed.as_slice()), None);
    assert_eq!(parse_u16(str_chars("65535").as_slice()), Some(u16::MAX));
    assert_eq!(parse_u16(str_chars("65536").as_slice()), None);
    assert_eq!(parse_u8(str_chars("255").as_slice()), Some(255));
    assert_eq!(parse_u8(str_chars("256").as_slice()), None);
    assert_eq!(parse_u8(str_chars("007").as_slice()), Some(7));
}

#[test]
fn records_split_on_crlf_only() {
    let text = str_chars("a\r\nb\nc\rd\r\n");
    let recs = records(&text);
    let recs: Vec<String> = recs.iter().map(chars_to_string).collect();
    // A lone LF or CR is data, only the two-character CR LF terminates.
    assert_eq!(recs, vec!["a".to_string(), "b\nc\rd".to_string()]);
}

#[test]
fn trailing_terminator_opens_no_record() {
    let with = records(&str_chars("a\r\nb\r\n"));
    assert_eq!(with.len(), 2);
    let without = records(&str_chars("a\r\nb"));
    assert_eq!(without.len(), 2);
}

#[test]
fn fields_split_on_tabs_without_quoting() {
    let rec = str_chars("a\t\"b,c\"\t\td");
    let fs = fields(&rec);
    let fs: Vec<String> = fs.iter().map(chars_to_string).collect();
    // No quoting: the quotes are data; adjacent tabs give an empty field.
    assert_eq!(
        fs,
        vec!["a".to_string(), "\"b,c\"".to_string(), "".to_string(), "d".to_string()]
    );
}

#[test]
fn string_round_trip_through_chars() {
    let s = "grüezi, Bözingen";
    let v = str_chars(s);
    assert_eq!(chars_to_string(&v), s);
}
