//! The strict tab-delimited dialect of the registry's text tables.
//!
//! Records are terminated by the two-character sequence CR LF, fields are
//! separated by a horizontal tab, there is no quoting or escaping and no
//! header row. A trailing record terminator does not open an empty record.

use vstd::prelude::*;

use crate::date::{digit, digit_val, is_digit};

verus! {

/// Split `s` at every CR LF, with `cur` the partial record read so far.
pub open spec fn rec_split(s: Seq<char>, cur: Seq<char>) -> Seq<Seq<char>>
    decreases s.len(),
{
    if s.len() >= 2 && s[0] == '\r' && s[1] == '\n' {
        seq![cur] + rec_split(s.skip(2), Seq::empty())
    } else if s.len() == 0 {
        seq![cur]
    } else {
        rec_split(s.skip(1), cur.push(s[0]))
    }
}

/// The records of a text: the CR LF-separated segments, except that a
/// trailing empty segment (from a final record terminator) is dropped and an
/// empty text has no records.
pub open spec fn spec_records(s: Seq<char>) -> Seq<Seq<char>> {
    if s.len() == 0 {
        seq![]
    } else {
        let r = rec_split(s, Seq::empty());
        if r.last().len() == 0 {
            r.drop_last()
        } else {
            r
        }
    }
}

/// Split `s` at every occurrence of `sep`, with `cur` the partial segment
/// read so far.
pub open spec fn split_acc(s: Seq<char>, sep: char, cur: Seq<char>) -> Seq<Seq<char>>
    decreases s.len(),
{
    if s.len() == 0 {
        seq![cur]
    } else if s[0] == sep {
        seq![cur] + split_acc(s.skip(1), sep, Seq::empty())
    } else {
        split_acc(s.skip(1), sep, cur.push(s[0]))
    }
}

/// The segments of `s` between occurrences of `sep`. There is always at
/// least one segment; an empty text has exactly one empty segment.
pub open spec fn spec_split(s: Seq<char>, sep: char) -> Seq<Seq<char>> {
    split_acc(s, sep, Seq::empty())
}

/// The fields of one record: its tab-separated segments. A record always has
/// at least one field; an empty record has exactly one empty field.
pub open spec fn spec_fields(rec: Seq<char>) -> Seq<Seq<char>> {
    spec_split(rec, '\t')
}

/// Every character is an ASCII decimal digit.
pub open spec fn all_digits(s: Seq<char>) -> bool {
    forall|i: int| 0 <= i < s.len() ==> is_digit(#[trigger] s[i])
}

/// The value of a string of decimal digits.
pub open spec fn dec_val(s: Seq<char>) -> int
    decreases s.len(),
{
    if s.len() == 0 {
        0
    } else {
        10 * dec_val(s.drop_last()) + digit_val(s.last())
    }
}

/// The `u32` an all-digit field denotes: `Some` exactly for a non-empty
/// all-digit text whose value fits.
pub open spec fn spec_parse_u32(s: Seq<char>) -> Option<u32> {
    if s.len() > 0 && all_digits(s) && dec_val(s) <= u32::MAX {
        Some(dec_val(s) as u32)
    } else {
        None
    }
}

/// The `u16` an all-digit field denotes.
pub open spec fn spec_parse_u16(s: Seq<char>) -> Option<u16> {
    if s.len() > 0 && all_digits(s) && dec_val(s) <= u16::MAX {
        Some(dec_val(s) as u16)
    } else {
        None
    }
}

/// The `u8` an all-digit field denotes.
pub open spec fn spec_parse_u8(s: Seq<char>) -> Option<u8> {
    if s.len() > 0 && all_digits(s) && dec_val(s) <= u8::MAX {
        Some(dec_val(s) as u8)
    } else {
        None
    }
}

/// The value of a digit string is never negative.
proof fn lemma_dec_val_nonneg(s: Seq<char>)
    requires
        all_digits(s),
    ensures
        dec_val(s) >= 0,
    decreases s.len(),
{
    if s.len() > 0 {
        assert(is_digit(s.last()));
        lemma_dec_val_nonneg(s.drop_last());
    }
}

/// A prefix of a digit string never has a larger value than the whole.
proof fn lemma_dec_val_prefix_le(s: Seq<char>, i: int)
    requires
        all_digits(s),
        0 <= i <= s.len(),
    ensures
        dec_val(s.take(i)) <= dec_val(s),
    decreases s.len() - i,
{
    if i < s.len() {
        lemma_dec_val_prefix_le(s, i + 1);
        assert(s.take(i + 1).drop_last() =~= s.take(i));
        assert(all_digits(s.take(i))) by {
            assert(forall|j: int|
                0 <= j < i ==> is_digit(#[trigger] s.take(i)[j]) == is_digit(s[j]));
        }
        lemma_dec_val_nonneg(s.take(i));
        assert(is_digit(s.take(i + 1).last()));
        assert(dec_val(s.take(i + 1)) == 10 * dec_val(s.take(i)) + digit_val(s.take(i + 1).last()));
    } else {
        assert(s.take(i) =~= s);
    }
}

/// Split a text into its records.
pub fn records(s: &Vec<char>) -> (r: Vec<Vec<char>>)
    ensures
        r.deep_view() == spec_records(s@),
{
    let n = s.len();
    if n == 0 {
        let r: Vec<Vec<char>> = Vec::new();
        assert(r.deep_view() =~= spec_records(s@));
        return r;
    }
    let mut out: Vec<Vec<char>> = Vec::new();
    let mut cur: Vec<char> = Vec::new();
    let mut i: usize = 0;
    proof {
        assert(s@.skip(0) =~= s@);
        assert(out.deep_view() =~= Seq::<Seq<char>>::empty());
        assert(out.deep_view() + rec_split(s@, Seq::empty()) =~= rec_split(s@, Seq::empty()));
    }
    while i < n
        invariant
            n == s@.len(),
            i <= n,
            cur.deep_view() == cur@,
            rec_split(s@, Seq::empty()) =~= out.deep_view() + rec_split(s@.skip(i as int), cur@),
        decreases n - i,
    {
        let c = s[i];
        if c == '\r' && i + 1 < n && s[i + 1] == '\n' {
            assert(s@.skip(i as int).skip(2) =~= s@.skip(i as int + 2));
            let ghost old_out = out.deep_view();
            out.push(cur);
            assert(out.deep_view() =~= old_out.push(cur@));
            cur = Vec::new();
            i = i + 2;
        } else {
            assert(s@.skip(i as int).skip(1) =~= s@.skip(i as int + 1));
            assert(s@.skip(i as int)[0] == s@[i as int]);
            cur.push(c);
            i = i + 1;
        }
    }
    assert(s@.skip(i as int).len() == 0);
    assert(rec_split(s@.skip(i as int), cur@) =~= seq![cur@]);
    if cur.len() == 0 {
        assert(rec_split(s@, Seq::empty()).last().len() == 0);
        assert(out.deep_view() =~= spec_records(s@));
        out
    } else {
        let ghost old_out = out.deep_view();
        out.push(cur);
        assert(out.deep_view() =~= old_out.push(cur@));
        assert(out.deep_view() =~= spec_records(s@));
        out
    }
}

/// Split a text at every occurrence of `sep`.
pub fn split_on_char(rec: &Vec<char>, sep: char) -> (r: Vec<Vec<char>>)
    ensures
        r.deep_view() == spec_split(rec@, sep),
{
    let n = rec.len();
    let mut out: Vec<Vec<char>> = Vec::new();
    let mut cur: Vec<char> = Vec::new();
    let mut i: usize = 0;
    proof {
        assert(rec@.skip(0) =~= rec@);
        assert(out.deep_view() =~= Seq::<Seq<char>>::empty());
        assert(out.deep_view() + split_acc(rec@, sep, Seq::empty()) =~= split_acc(
            rec@,
            sep,
            Seq::empty(),
        ));
    }
    while i < n
        invariant
            n == rec@.len(),
            i <= n,
            cur.deep_view() == cur@,
            split_acc(rec@, sep, Seq::empty()) =~= out.deep_view() + split_acc(
                rec@.skip(i as int),
                sep,
                cur@,
            ),
        decreases n - i,
    {
        let c = rec[i];
        assert(rec@.skip(i as int).skip(1) =~= rec@.skip(i as int + 1));
        assert(rec@.skip(i as int)[0] == rec@[i as int]);
        if c == sep {
            let ghost old_out = out.deep_view();
            out.push(cur);
            assert(out.deep_view() =~= old_out.push(cur@));
            cur = Vec::new();
        } else {
            cur.push(c);
        }
        i = i + 1;
    }
    assert(rec@.skip(i as int).len() == 0);
    let ghost old_out = out.deep_view();
    out.push(cur);
    assert(out.deep_view() =~= old_out.push(cur@));
    assert(out.deep_view() =~= spec_split(rec@, sep));
    out
}

/// Split one record into its tab-separated fields.
pub fn fields(rec: &Vec<char>) -> (r: Vec<Vec<char>>)
    ensures
        r.deep_view() == spec_fields(rec@),
{
    split_on_char(rec, '\t')
}

/// Parse a non-empty all-digit field as a `u32`.
pub fn parse_u32(s: &[char]) -> (r: Option<u32>)
    ensures
        r == spec_parse_u32(s@),
{
    let n = s.len();
    if n == 0 {
        return None;
    }
    let mut acc: u64 = 0;
    let mut i: usize = 0;
    while i < n
        invariant
            n == s@.len(),
            i <= n,
            all_digits(s@.take(i as int)),
            acc == dec_val(s@.take(i as int)),
            acc <= u32::MAX,
        decreases n - i,
    {
        let c = s[i];
        if !digit(c) {
            assert(!all_digits(s@));
            return None;
        }
        proof {
            assert(s@.take(i + 1).drop_last() =~= s@.take(i as int));
            assert(forall|j: int|
                0 <= j < i + 1 ==> is_digit(#[trigger] s@.take(i + 1)[j]) == is_digit(
                    s@[j],
                ));
        }
        acc = acc * 10 + (c as u64 - 48);
        i = i + 1;
        if acc > 0xffff_ffff {
            proof {
                if all_digits(s@) {
                    lemma_dec_val_prefix_le(s@, i as int);
                }
            }
            return None;
        }
    }
    assert(s@.take(i as int) =~= s@);
    Some(acc as u32)
}

/// Parse a non-empty all-digit field as a `u16`.
pub fn parse_u16(s: &[char]) -> (r: Option<u16>)
    ensures
        r == spec_parse_u16(s@),
{
    proof {
        if s@.len() > 0 && all_digits(s@) {
            lemma_dec_val_nonneg(s@);
        }
    }
    match parse_u32(s) {
        Some(v) => if v <= 0xffff {
            Some(v as u16)
        } else {
            None
        },
        None => None,
    }
}

/// Parse a non-empty all-digit field as a `u8`.
pub fn parse_u8(s: &[char]) -> (r: Option<u8>)
    ensures
        r == spec_parse_u8(s@),
{
    proof {
        if s@.len() > 0 && all_digits(s@) {
            lemma_dec_val_nonneg(s@);
        }
    }
    match parse_u32(s) {
        Some(v) => if v <= 0xff {
            Some(v as u8)
        } else {
            None
        },
        None => None,
    }
}

} // verus!
