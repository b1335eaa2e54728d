//! The metadata of an asset, as Tiingo describes it in a JSON document.

use crate::calendar::{day_in_range, iso_date_day, Date};
use crate::error::FetchError;
use crate::text::{chars_of, string_of};
use serde_json::Value;
use vstd::prelude::*;
use vstd::string::StringExecFns;

verus! {

/// What Tiingo says of an asset.
#[derive(Debug)]
pub struct Metadata {
    /// The ticker of the asset.
    pub ticker: String,
    /// The full name of the asset.
    pub name: String,
    /// The exchange on which the asset is listed.
    pub exchange_code: String,
    /// A description of the asset.
    pub description: String,
    /// The first day for which Tiingo has prices.
    pub start_date: Date,
    /// The last day for which Tiingo has prices.
    pub end_date: Date,
}

impl PartialEq for Metadata {
    fn eq(&self, other: &Self) -> (r: bool) {
        self.ticker == other.ticker && self.name == other.name && self.exchange_code
            == other.exchange_code && self.description == other.description && self.start_date
            == other.start_date && self.end_date == other.end_date
    }
}

impl vstd::std_specs::cmp::PartialEqSpecImpl for Metadata {
    open spec fn obeys_eq_spec() -> bool {
        true
    }

    open spec fn eq_spec(&self, other: &Self) -> bool {
        self.ticker@ == other.ticker@ && self.name@ == other.name@ && self.exchange_code@
            == other.exchange_code@ && self.description@ == other.description@ && self.start_date
            == other.start_date && self.end_date == other.end_date
    }
}

/// The text that serde_json writes for the member `key` of a JSON document:
/// the member as JSON, `null` where the document is no object or has no such
/// member, and nothing where the document is no JSON at all.
pub uninterp spec fn json_member_text(document: Seq<char>, key: Seq<char>) -> Option<Seq<char>>;

/// `serde_json::from_str` into a `Value`, then the index by a key and
/// `to_string`: the member as JSON text, or `None` where the document does
/// not parse. The result depends on the document and the key alone and goes
/// by the name `json_member_text`.
#[verifier::external_body]
fn json_member(document: &str, key: &str) -> (r: Option<String>)
    ensures
        r is Some <==> json_member_text(document@, key@) is Some,
        r matches Some(text) ==> json_member_text(document@, key@) == Some(text@),
{
    match serde_json::from_str::<Value>(document) {
        Ok(value) => Some(value[key].to_string()),
        Err(_) => None,
    }
}

/// A text without the double quotes that it begins with.
pub open spec fn without_leading_quotes(s: Seq<char>) -> Seq<char>
    decreases s.len(),
{
    if s.len() > 0 && s.first() == '"' {
        without_leading_quotes(s.drop_first())
    } else {
        s
    }
}

/// A text without the double quotes that it ends with.
pub open spec fn without_trailing_quotes(s: Seq<char>) -> Seq<char>
    decreases s.len(),
{
    if s.len() > 0 && s.last() == '"' {
        without_trailing_quotes(s.drop_last())
    } else {
        s
    }
}

/// A text without the double quotes around it.
pub open spec fn unquoted(s: Seq<char>) -> Seq<char> {
    without_trailing_quotes(without_leading_quotes(s))
}

/// Takes the double quotes off both ends of a text.
pub fn trim_quotes(text: &str) -> (r: String)
    ensures
        r@ == unquoted(text@),
{
    let chars = chars_of(text);
    let ghost s = chars@;
    let n = chars.len();
    let mut lo: usize = 0;
    assert(s.skip(0) == s);
    while lo < n && chars[lo] == '"'
        invariant
            lo <= n,
            n == s.len(),
            s == chars@,
            without_leading_quotes(s) == without_leading_quotes(s.skip(lo as int)),
        decreases n - lo,
    {
        proof {
            assert(s.skip(lo as int).first() == '"');
            assert(s.skip(lo as int).drop_first() == s.skip(lo + 1));
        }
        lo = lo + 1;
    }
    assert(without_leading_quotes(s) == s.skip(lo as int)) by {
        if lo < n {
            assert(s.skip(lo as int).first() == s[lo as int]);
        }
    }
    let mut hi: usize = n;
    assert(s.subrange(lo as int, n as int) == s.skip(lo as int));
    while hi > lo && chars[hi - 1] == '"'
        invariant
            lo <= hi <= n,
            n == s.len(),
            s == chars@,
            unquoted(s) == without_trailing_quotes(s.subrange(lo as int, hi as int)),
        decreases hi,
    {
        proof {
            assert(s.subrange(lo as int, hi as int).last() == '"');
            assert(s.subrange(lo as int, hi as int).drop_last() == s.subrange(lo as int, hi - 1));
        }
        hi = hi - 1;
    }
    assert(unquoted(s) == s.subrange(lo as int, hi as int)) by {
        if hi > lo {
            assert(s.subrange(lo as int, hi as int).last() == s[hi - 1]);
        }
    }
    let mut inner: Vec<char> = Vec::new();
    let mut i: usize = lo;
    while i < hi
        invariant
            lo <= i <= hi <= n,
            n == s.len(),
            s == chars@,
            inner@ == s.subrange(lo as int, i as int),
        decreases hi - i,
    {
        proof {
            assert(s.subrange(lo as int, i + 1) == s.subrange(lo as int, i as int).push(s[i as int]));
        }
        inner.push(chars[i]);
        i = i + 1;
    }
    string_of(&inner)
}

/// The member `key` of a JSON document as plain text: what serde_json writes
/// for it, without the double quotes around it.
pub open spec fn member_text(document: Seq<char>, key: Seq<char>) -> Option<Seq<char>> {
    match json_member_text(document, key) {
        Some(text) => Some(unquoted(text)),
        None => None,
    }
}

/// The day that the member `key` of a JSON document names, counted from
/// 1970-01-01, if it names a date.
pub open spec fn member_day(document: Seq<char>, key: Seq<char>) -> Option<int> {
    match member_text(document, key) {
        Some(text) => match iso_date_day(text) {
            Some(day) => if day_in_range(day) {
                Some(day)
            } else {
                None
            },
            None => None,
        },
        None => None,
    }
}

/// The message of the failure of a document that does not describe an asset.
pub const UNREADABLE_DOCUMENT: &'static str = "the answer does not describe an asset";

/// Whether a document describes an asset: it is JSON, and its members
/// `startDate` and `endDate` name dates.
pub open spec fn describes_asset(document: Seq<char>) -> bool {
    &&& member_day(document, "startDate"@) is Some
    &&& member_day(document, "endDate"@) is Some
    &&& member_text(document, "ticker"@) is Some
    &&& member_text(document, "name"@) is Some
    &&& member_text(document, "exchangeCode"@) is Some
    &&& member_text(document, "description"@) is Some
}

/// Whether `outcome` is what a document of Tiingo reads as: the metadata that
/// its members give, or a failure where it does not describe an asset.
pub open spec fn is_metadata_of(document: Seq<char>, outcome: Result<Metadata, FetchError>) -> bool {
    if describes_asset(document) {
        &&& outcome matches Ok(m)
        &&& Some(m.ticker@) == member_text(document, "ticker"@)
        &&& Some(m.name@) == member_text(document, "name"@)
        &&& Some(m.exchange_code@) == member_text(document, "exchangeCode"@)
        &&& Some(m.description@) == member_text(document, "description"@)
        &&& Some(m.start_date@) == member_day(document, "startDate"@)
        &&& Some(m.end_date@) == member_day(document, "endDate"@)
    } else {
        outcome matches Err(e) && e.message@ == UNREADABLE_DOCUMENT@
    }
}

/// Reads the member `key` of a JSON document as plain text.
fn read_member(document: &str, key: &str) -> (r: Option<String>)
    ensures
        r is Some <==> member_text(document@, key@) is Some,
        r matches Some(text) ==> member_text(document@, key@) == Some(text@),
{
    match json_member(document, key) {
        Some(text) => Some(trim_quotes(text.as_str())),
        None => None,
    }
}

/// Reads the member `key` of a JSON document as a date.
fn read_member_date(document: &str, key: &str) -> (r: Option<Date>)
    ensures
        r is Some <==> member_day(document@, key@) is Some,
        r matches Some(date) ==> member_day(document@, key@) == Some(date@),
{
    match read_member(document, key) {
        Some(text) => Date::parse(text.as_str()),
        None => None,
    }
}

/// The failure of a document that does not describe an asset.
fn unreadable() -> (r: FetchError)
    ensures
        r.message@ == UNREADABLE_DOCUMENT@,
{
    FetchError { message: String::from_str(UNREADABLE_DOCUMENT) }
}

/// Reads the metadata of an asset from the JSON document that Tiingo
/// answers with.
pub fn metadata_from_json(document: &str) -> (r: Result<Metadata, FetchError>)
    ensures
        is_metadata_of(document@, r),
{
    let start_date = match read_member_date(document, "startDate") {
        Some(date) => date,
        None => {
            return Err(unreadable());
        },
    };
    let end_date = match read_member_date(document, "endDate") {
        Some(date) => date,
        None => {
            return Err(unreadable());
        },
    };
    let ticker = match read_member(document, "ticker") {
        Some(text) => text,
        None => {
            return Err(unreadable());
        },
    };
    let name = match read_member(document, "name") {
        Some(text) => text,
        None => {
            return Err(unreadable());
        },
    };
    let exchange_code = match read_member(document, "exchangeCode") {
        Some(text) => text,
        None => {
            return Err(unreadable());
        },
    };
    let description = match read_member(document, "description") {
        Some(text) => text,
        None => {
            return Err(unreadable());
        },
    };
    Ok(Metadata { ticker, name, exchange_code, description, start_date, end_date })
}

/// The request for the metadata of `ticker`.
pub open spec fn metadata_request_text(ticker: Seq<char>, api_key: Seq<char>) -> Seq<char> {
    "https://api.tiingo.com/tiingo/daily/"@ + ticker + "?token="@ + api_key
}

/// Writes the request for the metadata of `ticker`.
pub fn metadata_request(ticker: &str, api_key: &str) -> (r: String)
    ensures
        r@ == metadata_request_text(ticker@, api_key@),
{
    let mut request = String::from_str("https://api.tiingo.com/tiingo/daily/");
    request.append(ticker);
    request.append("?token=");
    request.append(api_key);
    assert(request@ =~= metadata_request_text(ticker@, api_key@));
    request
}

} // verus!
