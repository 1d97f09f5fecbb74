//! Types and helpers for the blockchain-explorer gateway: the fee-estimate
//! record, endpoint URL normalization, and block-time rendering.

use vstd::prelude::*;
use crate::timefmt::format_epoch_local;

verus! {

/// The recommended fee tiers, in fee-rate units.
#[derive(Clone, Copy, Debug, PartialEq, Eq, Structural)]
pub struct MempoolFeeEstimate {
    pub fastest_fee: u32,
    pub half_hour_fee: u32,
    pub hour_fee: u32,
    pub economy_fee: u32,
    pub minimum_fee: u32,
}

/// What `url::Url::parse` followed by serialization makes of a string: a
/// function of the string alone. `None` stands for a string that does not
/// parse as an absolute URL.
pub uninterp spec fn url_normal_form(s: Seq<char>) -> Option<Seq<char>>;

/// Relies on `url::Url::parse` and the serialization its `Display` writes:
/// both depend on the input string alone.
#[verifier::external_body]
fn parse_url_string(input: &str) -> (r: Option<String>)
    ensures
        match r {
            Some(t) => url_normal_form(input@) == Some(t@),
            None => url_normal_form(input@) is None,
        },
{
    match url::Url::parse(input) {
        Ok(u) => Some(u.to_string()),
        Err(_) => None,
    }
}

/// Does `u` end in the path suffix `/api`?
pub open spec fn ends_with_api(u: Seq<char>) -> bool {
    u.len() >= 4 && u[u.len() - 4] == '/' && u[u.len() - 3] == 'a' && u[u.len() - 2] == 'p'
        && u[u.len() - 1] == 'i'
}

/// A serialized URL with any trailing slash removed and the `/api` suffix
/// ensured.
pub open spec fn normalized_suffix(t: Seq<char>) -> Seq<char> {
    let u = if t.len() > 0 && t.last() == '/' {
        t.drop_last()
    } else {
        t
    };
    if ends_with_api(u) {
        u
    } else {
        u + "/api"@
    }
}

/// What `normalize_url` returns: the suffix-normalized serialization of the
/// input, of the input with a default `https://` scheme prepended when the
/// bare input does not parse, or the input itself when neither parses.
pub open spec fn normalize_url_spec(s: Seq<char>) -> Seq<char> {
    match url_normal_form(s) {
        Some(t) => normalized_suffix(t),
        None => match url_normal_form("https://"@ + s) {
            Some(t) => normalized_suffix(t),
            None => s,
        },
    }
}

/// Strip a trailing slash and ensure the `/api` suffix on a serialized URL.
fn finish_normalize(t: String) -> (r: String)
    ensures
        r@ == normalized_suffix(t@),
{
    let n = t.as_str().unicode_len();
    let u: String = if n > 0 && t.as_str().get_char(n - 1) == '/' {
        let stripped = t.as_str().substring_char(0, n - 1);
        proof {
            assert(stripped@ =~= t@.drop_last());
        }
        stripped.to_owned()
    } else {
        t
    };
    let m = u.as_str().unicode_len();
    let ends = m >= 4 && u.as_str().get_char(m - 4) == '/' && u.as_str().get_char(m - 3) == 'a'
        && u.as_str().get_char(m - 2) == 'p' && u.as_str().get_char(m - 1) == 'i';
    if ends {
        u
    } else {
        u.concat("/api")
    }
}

/// Normalize a user-supplied endpoint URL before it is used as a base for
/// gateway calls: make it parse as an absolute URL (prepending `https://`
/// when the scheme is missing), strip a trailing slash, and ensure the
/// `/api` path suffix. A string that cannot be made to parse is returned
/// unchanged.
pub fn normalize_url(input_url: &str) -> (r: String)
    ensures
        r@ == normalize_url_spec(input_url@),
{
    match parse_url_string(input_url) {
        Some(t) => finish_normalize(t),
        None => {
            let prefixed = "https://".to_owned().concat(input_url);
            match parse_url_string(prefixed.as_str()) {
                Some(t) => finish_normalize(t),
                None => input_url.to_owned(),
            }
        },
    }
}

/// Render an epoch second as a local date-time string, `YYYY-MM-DD HH:MM`.
///
/// Every second an unsigned 32-bit value can hold is inside the calendar
/// library's range, so a rendering always exists and is never the
/// `Invalid timestamp` placeholder; its text depends on the machine's time
/// zone, so no more is stated of it.
pub fn format_unix_timestamp(timestamp: u32) -> (r: String)
    ensures
        r@ != "Invalid timestamp"@,
{
    match format_epoch_local(timestamp as i64) {
        Some(s) => s,
        None => "Invalid timestamp".to_owned(),
    }
}

} // verus!
