//! The optional `DD.MM.YYYY` date fields of a record: an empty field stands
//! for "no date".

use vstd::prelude::*;

use crate::chars::{chars_to_string, str_chars};
use crate::date::{spec_format_date, spec_parse_date, Date, DateError};

verus! {

/// Render an optional date: `None` becomes the empty field text.
pub fn serialize(date: &Option<Date>) -> (r: String)
    requires
        date is Some ==> date->0.wf(),
    ensures
        date is Some ==> r@ == spec_format_date(date->0),
        date is None ==> r@ == Seq::<char>::empty(),
{
    match date {
        Some(d) => {
            let v = crate::date::date_to_chars(d);
            chars_to_string(&v)
        },
        None => String::new(),
    }
}

/// Parse an optional date field: the empty text is `None`, anything else must
/// be a valid `DD.MM.YYYY` date.
pub fn deserialize(s: &str) -> (r: Result<Option<Date>, DateError>)
    ensures
        s@.len() == 0 ==> r == Ok::<Option<Date>, DateError>(None::<Date>),
        s@.len() > 0 ==> (r is Ok <==> spec_parse_date(s@) is Some),
        s@.len() > 0 && r is Ok ==> r->Ok_0 == Some(spec_parse_date(s@)->Some_0),
{
    let v = str_chars(s);
    if v.len() == 0 {
        return Ok(None);
    }
    match crate::date::date_from_chars(v.as_slice()) {
        Some(d) => Ok(Some(d)),
        None => Err(DateError),
    }
}

} // verus!
