//! An asset of the statistics office's data delivery service, and the URL
//! templates to download it or its citation entries.

use vstd::prelude::*;

use crate::chars::chars_to_string;
use crate::date::{digit_char, digit_to_char};

verus! {

/// Identifier of an asset.
pub type AssetId = u32;

/// The decimal digit characters of `n`, most significant first.
pub open spec fn dec_digits(n: int) -> Seq<char>
    decreases n,
{
    if n < 10 {
        seq![digit_char(n)]
    } else {
        dec_digits(n / 10).push(digit_char(n % 10))
    }
}

/// The URL to download the asset's data.
pub open spec fn spec_url_data(id: AssetId) -> Seq<char> {
    "https://dam-api.bfs.admin.ch/hub/api/dam/assets/"@ + dec_digits(id as int) + "/master"@
}

/// The URL of the asset's BibTeX citation entry.
pub open spec fn spec_url_bibtex(id: AssetId) -> Seq<char> {
    "https://dam-api.bfs.admin.ch/hub/api/dam/assets/"@ + dec_digits(id as int) + "/bibtex"@
}

/// The URL of the asset's RIS citation entry.
pub open spec fn spec_url_ris(id: AssetId) -> Seq<char> {
    "https://dam-api.bfs.admin.ch/hub/api/dam/assets/"@ + dec_digits(id as int) + "/ris"@
}

/// The decimal digit characters of `n`, most significant first.
pub fn u32_decimal(n: u32) -> (r: Vec<char>)
    ensures
        r@ == dec_digits(n as int),
{
    let mut rev: Vec<char> = Vec::new();
    let mut m = n;
    proof {
        assert(rev@.reverse() =~= Seq::<char>::empty());
        assert(dec_digits(n as int) + rev@.reverse() =~= dec_digits(n as int));
    }
    loop
        invariant
            if m > 0 {
                dec_digits(n as int) =~= dec_digits(m as int) + rev@.reverse()
            } else if rev@.len() > 0 {
                dec_digits(n as int) =~= rev@.reverse()
            } else {
                n == 0
            },
            n == 0 ==> m == 0 && rev@.len() <= 1,
        ensures
            m == 0,
            rev@.len() > 0,
            dec_digits(n as int) =~= rev@.reverse(),
        decreases m, (if rev@.len() == 0 { 1int } else { 0int }),
    {
        if m == 0 && rev.len() > 0 {
            break ;
        }
        let ghost pre_rev = rev@;
        let d = digit_to_char((m % 10) as u8);
        rev.push(d);
        proof {
            assert(rev@.reverse() =~= seq![d] + pre_rev.reverse());
        }
        let pre_m = m;
        m = m / 10;
        proof {
            if pre_m < 10 {
                assert(dec_digits(pre_m as int) =~= seq![digit_char(pre_m as int)]);
                assert(dec_digits(n as int) =~= rev@.reverse());
            } else {
                assert(dec_digits(pre_m as int) == dec_digits(pre_m as int / 10).push(
                    digit_char(pre_m as int % 10),
                ));
                assert(dec_digits(pre_m as int / 10) + (seq![d] + pre_rev.reverse())
                    =~= dec_digits(pre_m as int) + pre_rev.reverse());
                assert(dec_digits(n as int) =~= dec_digits(m as int) + rev@.reverse());
            }
        }
    }
    let k = rev.len();
    let mut out: Vec<char> = Vec::new();
    let mut i: usize = 0;
    while i < k
        invariant
            k == rev@.len(),
            i <= k,
            out@ =~= rev@.reverse().take(i as int),
        decreases k - i,
    {
        out.push(rev[k - 1 - i]);
        proof {
            assert(out@ =~= rev@.reverse().take(i as int + 1));
        }
        i = i + 1;
    }
    proof {
        assert(out@ =~= rev@.reverse());
    }
    out
}

/// An asset of the data delivery service, for download or citation.
#[derive(Copy, Clone, Debug, PartialEq, Eq, Structural)]
pub struct Asset(pub AssetId);

impl Asset {
    /// The asset's identifier.
    pub open spec fn spec_id(self) -> AssetId {
        self.0
    }

    /// URL to download the asset's data.
    pub fn url_data(&self) -> (r: String)
        ensures
            r@ == spec_url_data(self.spec_id()),
    {
        let mut out = String::new();
        out.append("https://dam-api.bfs.admin.ch/hub/api/dam/assets/");
        let digits = u32_decimal(self.0);
        let digits_str = chars_to_string(&digits);
        out.append(digits_str.as_str());
        out.append("/master");
        out
    }

    /// URL of the BibTeX entry for citing the data source (citing can be
    /// mandatory by law).
    pub fn url_bibtex(&self) -> (r: String)
        ensures
            r@ == spec_url_bibtex(self.spec_id()),
    {
        let mut out = String::new();
        out.append("https://dam-api.bfs.admin.ch/hub/api/dam/assets/");
        let digits = u32_decimal(self.0);
        let digits_str = chars_to_string(&digits);
        out.append(digits_str.as_str());
        out.append("/bibtex");
        out
    }

    /// URL of the RIS entry for citing the data source (citing can be
    /// mandatory by law).
    pub fn url_ris(&self) -> (r: String)
        ensures
            r@ == spec_url_ris(self.spec_id()),
    {
        let mut out = String::new();
        out.append("https://dam-api.bfs.admin.ch/hub/api/dam/assets/");
        let digits = u32_decimal(self.0);
        let digits_str = chars_to_string(&digits);
        out.append(digits_str.as_str());
        out.append("/ris");
        out
    }
}

impl From<AssetId> for Asset {
    /// Wrap an asset identifier.
    fn from(id: AssetId) -> (r: Self) {
        Asset(id)
    }
}

impl vstd::std_specs::convert::FromSpecImpl<AssetId> for Asset {
    open spec fn obeys_from_spec() -> bool {
        true
    }

    open spec fn from_spec(id: AssetId) -> Self {
        Asset(id)
    }
}

} // verus!
