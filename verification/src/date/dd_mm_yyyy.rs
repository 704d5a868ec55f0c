//! The mandatory `DD.MM.YYYY` date fields of a record.

use vstd::prelude::*;

use crate::chars::{chars_to_string, str_chars};
use crate::date::{spec_format_date, spec_parse_date, Date, DateError};

verus! {

/// Render a date as its ten-character `DD.MM.YYYY` text.
pub fn serialize(date: &Date) -> (r: String)
    requires
        date.wf(),
    ensures
        r@ == spec_format_date(*date),
{
    let v = crate::date::date_to_chars(date);
    chars_to_string(&v)
}

/// Parse a `DD.MM.YYYY` text; any other shape or an invalid calendar date is
/// rejected.
pub fn deserialize(s: &str) -> (r: Result<Date, DateError>)
    ensures
        r is Ok <==> spec_parse_date(s@) is Some,
        r is Ok ==> r->Ok_0 == spec_parse_date(s@)->Some_0,
{
    let v = str_chars(s);
    match crate::date::date_from_chars(v.as_slice()) {
        Some(d) => Ok(d),
        None => Err(DateError),
    }
}

} // verus!
