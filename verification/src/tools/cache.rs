//! Freshness rules and file naming for the on-disk cache of downloaded
//! resources.
//!
//! A cached resource lives under the platform cache directory, in the
//! application's namespace directory, in a file named by percent-encoding the
//! resource URL. A cached file is fresh while its modification time plus the
//! configured validity window lies in the future; only a stale or missing
//! file is fetched again.

use vstd::prelude::*;
use vstd::string::StringSliceAdditionalSpecFns;

verus! {

/// How long a cached file stays fresh when the caller does not choose a
/// window: one day, in seconds.
pub const DEFAULT_VALIDITY_SECS: u64 = 86400;

/// A byte that percent-encoding keeps as it is: ASCII alphanumerics and
/// `-`, `.`, `_`, `~`.
pub open spec fn is_unreserved_byte(b: u8) -> bool {
    ||| 48 <= b <= 57
    ||| 65 <= b <= 90
    ||| 97 <= b <= 122
    ||| b == 45
    ||| b == 46
    ||| b == 95
    ||| b == 126
}

/// The uppercase hexadecimal digit with value `v`.
pub open spec fn hex_digit_char(v: int) -> char {
    if v < 10 {
        (48 + v) as char
    } else {
        (55 + v) as char
    }
}

/// Percent-encoding of a byte sequence: unreserved bytes stand for
/// themselves, every other byte becomes `%` and two uppercase hex digits.
pub open spec fn spec_urlencode_bytes(bs: Seq<u8>) -> Seq<char>
    decreases bs.len(),
{
    if bs.len() == 0 {
        Seq::empty()
    } else {
        (if is_unreserved_byte(bs[0]) {
            seq![bs[0] as char]
        } else {
            seq!['%', hex_digit_char(bs[0] as int / 16), hex_digit_char(bs[0] as int % 16)]
        }) + spec_urlencode_bytes(bs.drop_first())
    }
}

/// Relies on `urlencoding::encode`: every byte of the UTF-8 form of the
/// input except ASCII alphanumerics and `-`, `.`, `_`, `~` is replaced by
/// `%` and two uppercase hexadecimal digits.
#[verifier::external_body]
fn urlencode(s: &str) -> (r: String)
    ensures
        r@ == spec_urlencode_bytes(s.spec_bytes()),
{
    urlencoding::encode(s).into_owned()
}

/// The cache file name for a resource URL: its percent-encoded form.
pub fn cache_file_name(url: &str) -> (r: String)
    ensures
        r@ == spec_urlencode_bytes(url.spec_bytes()),
{
    urlencode(url)
}

/// The directory under the platform cache directory that this application's
/// cache files live in.
pub fn cache_namespace() -> (r: &'static str)
    ensures
        r@ == "rust-swissdata"@,
{
    "rust-swissdata"
}

/// A cached file is fresh exactly when it is a regular file whose
/// modification time plus the validity window lies after `now`.
pub open spec fn spec_cache_valid(is_file: bool, modified: u64, validity: u64, now: u64) -> bool {
    is_file && now < modified + validity
}

/// Decide whether a cached file with the given state is still fresh.
/// `is_file` says whether the cache path exists and is a regular file;
/// `modified` is its modification time and `now` the current time, both in
/// seconds of the same clock; `validity` is the freshness window.
pub fn cache_is_valid(is_file: bool, modified: u64, validity: u64, now: u64) -> (r: bool)
    ensures
        r == spec_cache_valid(is_file, modified, validity, now),
{
    is_file && match modified.checked_add(validity) {
        Some(end) => now < end,
        None => true,
    }
}

/// What a load does about the cache: reuse the cached file, or fetch the
/// resource again and overwrite it.
#[derive(Copy, Clone, Debug, PartialEq, Eq, Structural)]
pub enum CacheAction {
    /// The cached file is fresh: reuse it, with no network access.
    UseCache,
    /// The cached file is stale or missing: fetch and rewrite it.
    Refresh,
}

/// The action a load takes for a cache file in the given state.
pub open spec fn spec_cache_plan(is_file: bool, modified: u64, validity: u64, now: u64)
    -> CacheAction {
    if spec_cache_valid(is_file, modified, validity, now) {
        CacheAction::UseCache
    } else {
        CacheAction::Refresh
    }
}

/// Choose the action for a cache file in the given state.
pub fn cache_plan(is_file: bool, modified: u64, validity: u64, now: u64) -> (r: CacheAction)
    ensures
        r == spec_cache_plan(is_file, modified, validity, now),
{
    if cache_is_valid(is_file, modified, validity, now) {
        CacheAction::UseCache
    } else {
        CacheAction::Refresh
    }
}

/// A path that is not a regular file is never reported fresh, whatever the
/// times say.
pub proof fn lemma_missing_never_valid(modified: u64, validity: u64, now: u64)
    ensures
        !spec_cache_valid(false, modified, validity, now),
{
}

/// Loading an already cached URL again within the validity window reuses the
/// cache: once a fetch has written the file at time `modified`, every load
/// while `now < modified + validity` takes [`CacheAction::UseCache`], so it
/// performs no further network request.
pub proof fn lemma_cached_load_skips_fetch(modified: u64, validity: u64, now: u64)
    requires
        now < modified + validity,
    ensures
        spec_cache_plan(true, modified, validity, now) == CacheAction::UseCache,
{
}

} // verus!
