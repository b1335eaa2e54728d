//! The REST interface of Polygon: the requests for aggregate bars and for
//! metadata, the pages in which the bars come, and the vocabulary of the
//! metadata.

use crate::calendar::{day_of, iso_date_text, Date};
use crate::candle::Granularity;
use crate::error::FetchError;
use crate::text::{append_decimal, decimal_text, same_text};
use vstd::prelude::*;
use vstd::string::StringExecFns;

verus! {

/// The longest history, in weeks, that Polygon serves.
pub const DEFAULT_POLYGON_MAX_HISTORICAL_WEEKS: i64 = 260;

/// The most bars that Polygon returns in one page.
pub const MAX_POLYGON_AGGS_LIMIT: i32 = 50000;

/// The size of an aggregate bar: a unit and a multiplier.
#[derive(Clone, Copy, Debug, PartialEq, Eq, Structural)]
pub enum Interval {
    Seconds(i32),
    Minutes(i32),
    Hours(i32),
    Days(i32),
    Weeks(i32),
    Months(i32),
    Quarters(i32),
    Years(i32),
}

impl Interval {
    /// The multiplier of the interval.
    pub open spec fn multiplier_value(self) -> i32 {
        match self {
            Interval::Seconds(m) => m,
            Interval::Minutes(m) => m,
            Interval::Hours(m) => m,
            Interval::Days(m) => m,
            Interval::Weeks(m) => m,
            Interval::Months(m) => m,
            Interval::Quarters(m) => m,
            Interval::Years(m) => m,
        }
    }

    /// The name of the unit, as the request spells it.
    pub open spec fn unit_text(self) -> Seq<char> {
        match self {
            Interval::Seconds(_) => "second"@,
            Interval::Minutes(_) => "minute"@,
            Interval::Hours(_) => "hour"@,
            Interval::Days(_) => "day"@,
            Interval::Weeks(_) => "week"@,
            Interval::Months(_) => "month"@,
            Interval::Quarters(_) => "quarter"@,
            Interval::Years(_) => "year"@,
        }
    }

    /// The interval that a granularity of stored candles asks for.
    pub open spec fn of_granularity(granularity: Granularity) -> Interval {
        match granularity {
            Granularity::Days(m) => Interval::Days(m),
            Granularity::Hours(m) => Interval::Hours(m),
            Granularity::Minutes(m) => Interval::Minutes(m),
        }
    }

    /// The multiplier of the interval.
    pub fn multiplier(&self) -> (r: i32)
        ensures
            r == self.multiplier_value(),
    {
        match self {
            Interval::Seconds(m) => *m,
            Interval::Minutes(m) => *m,
            Interval::Hours(m) => *m,
            Interval::Days(m) => *m,
            Interval::Weeks(m) => *m,
            Interval::Months(m) => *m,
            Interval::Quarters(m) => *m,
            Interval::Years(m) => *m,
        }
    }

    /// The name of the unit, as the request spells it.
    pub fn unit(&self) -> (r: &'static str)
        ensures
            r@ == self.unit_text(),
    {
        match self {
            Interval::Seconds(_) => "second",
            Interval::Minutes(_) => "minute",
            Interval::Hours(_) => "hour",
            Interval::Days(_) => "day",
            Interval::Weeks(_) => "week",
            Interval::Months(_) => "month",
            Interval::Quarters(_) => "quarter",
            Interval::Years(_) => "year",
        }
    }

    /// The interval that a granularity of stored candles asks for.
    pub fn from_granularity(granularity: &Granularity) -> (r: Interval)
        ensures
            r == Self::of_granularity(*granularity),
    {
        match granularity {
            Granularity::Days(m) => Interval::Days(*m),
            Granularity::Hours(m) => Interval::Hours(*m),
            Granularity::Minutes(m) => Interval::Minutes(*m),
        }
    }
}

/// The text of a truth value.
pub open spec fn bool_text(b: bool) -> Seq<char> {
    if b {
        "true"@
    } else {
        "false"@
    }
}

/// The request for the aggregate bars of `ticker` from the day `start` to the
/// day `end`, both counted from 1970-01-01, with the largest page that
/// Polygon serves.
pub open spec fn aggs_request_text(
    ticker: Seq<char>,
    api_key: Seq<char>,
    start: int,
    end: int,
    interval: Interval,
    adjusted: bool,
) -> Seq<char> {
    "https://api.polygon.io/v2/aggs/ticker/"@ + ticker + "/range/"@ + decimal_text(
        interval.multiplier_value() as int,
    ) + "/"@ + interval.unit_text() + "/"@ + iso_date_text(start) + "/"@ + iso_date_text(end)
        + "?adjusted="@ + bool_text(adjusted) + "&limit="@ + decimal_text(
        MAX_POLYGON_AGGS_LIMIT as int,
    ) + "&apiKey="@ + api_key
}

/// Writes the request for the aggregate bars of `ticker` over the range of
/// dates, at `interval`, adjusted for splits or not.
pub fn aggs_request(
    ticker: &str,
    api_key: &str,
    start_date: &Date,
    end_date: &Date,
    interval: &Interval,
    adjusted: bool,
) -> (r: String)
    ensures
        r@ == aggs_request_text(ticker@, api_key@, start_date@, end_date@, *interval, adjusted),
{
    let mut request = String::from_str("https://api.polygon.io/v2/aggs/ticker/");
    request.append(ticker);
    request.append("/range/");
    append_decimal(&mut request, interval.multiplier() as i64);
    request.append("/");
    request.append(interval.unit());
    request.append("/");
    request.append(start_date.to_text().as_str());
    request.append("/");
    request.append(end_date.to_text().as_str());
    request.append("?adjusted=");
    request.append(if adjusted { "true" } else { "false" });
    request.append("&limit=");
    append_decimal(&mut request, MAX_POLYGON_AGGS_LIMIT as i64);
    request.append("&apiKey=");
    request.append(api_key);
    assert(request@ =~= aggs_request_text(
        ticker@,
        api_key@,
        start_date@,
        end_date@,
        *interval,
        adjusted,
    ));
    request
}

/// The address of the next page: the address that the page before it names,
/// with the key.
pub open spec fn next_page_text(next_url: Seq<char>, api_key: Seq<char>) -> Seq<char> {
    next_url + "&apiKey="@ + api_key
}

/// One page of aggregate bars, as Polygon answers.
pub struct AggsPage<T> {
    /// The bars of the page.
    pub results: Vec<T>,
    /// The address of the next page, empty on the last one.
    pub next_url: String,
    /// The status of the request.
    pub status: String,
    /// The error that Polygon reports, if any.
    pub error: String,
}

/// What to do after a page of aggregate bars.
pub enum AggsStep<T> {
    /// Request `url`; `collected` holds the bars so far.
    Next { url: String, collected: Vec<T> },
    /// All pages have come, or Polygon has reported an error.
    Done(Result<Vec<T>, FetchError>),
}

/// Whether `step` is what follows a page that adds `results` to `collected`
/// and names `next_url`: the next page is requested, or the bars are complete
/// where there is none.
pub open spec fn follows_page<T>(
    collected: Seq<T>,
    results: Seq<T>,
    next_url: Seq<char>,
    api_key: Seq<char>,
    step: AggsStep<T>,
) -> bool {
    if next_url.len() == 0 {
        step matches AggsStep::Done(Ok(all)) && all@ == collected + results
    } else {
        &&& step matches AggsStep::Next { url, collected: all }
        &&& url@ == next_page_text(next_url, api_key)
        &&& all@ == collected + results
    }
}

/// Whether `step` is what follows the first page: the error that Polygon
/// reports where the status is `ERROR`, and else what follows any page.
pub open spec fn follows_first_page<T>(page: AggsPage<T>, api_key: Seq<char>, step: AggsStep<T>) -> bool {
    if page.status@ == "ERROR"@ {
        step matches AggsStep::Done(Err(e)) && e.message == page.error
    } else {
        follows_page(Seq::empty(), page.results@, page.next_url@, api_key, step)
    }
}

/// Takes in a page after the first.
pub fn aggs_next_page<T>(collected: Vec<T>, page: AggsPage<T>, api_key: &str) -> (r: AggsStep<T>)
    ensures
        follows_page(collected@, page.results@, page.next_url@, api_key@, r),
{
    let mut collected = collected;
    let mut page = page;
    collected.append(&mut page.results);
    if page.next_url.as_str().is_empty() {
        AggsStep::Done(Ok(collected))
    } else {
        let mut url = page.next_url;
        url.append("&apiKey=");
        url.append(api_key);
        AggsStep::Next { url, collected }
    }
}

/// Takes in the first page.
pub fn aggs_first_page<T>(page: AggsPage<T>, api_key: &str) -> (r: AggsStep<T>)
    ensures
        follows_first_page(page, api_key@, r),
{
    if same_text(page.status.as_str(), "ERROR") {
        AggsStep::Done(Err(FetchError { message: page.error }))
    } else {
        aggs_next_page(Vec::new(), page, api_key)
    }
}

/// The request for the metadata of `ticker`, as of a day counted from
/// 1970-01-01 where one is given.
pub open spec fn meta_request_text(ticker: Seq<char>, api_key: Seq<char>, date: Option<int>) -> Seq<char> {
    let head = "https://api.polygon.io/v3/reference/tickers/"@ + ticker + "?"@;
    let dated = match date {
        Some(day) => head + iso_date_text(day) + "&"@,
        None => head,
    };
    dated + "apiKey="@ + api_key
}

/// Writes the request for the metadata of `ticker`.
pub fn meta_request(ticker: &str, api_key: &str, date: Option<Date>) -> (r: String)
    ensures
        r@ == meta_request_text(ticker@, api_key@, day_of(date)),
{
    let mut request = String::from_str("https://api.polygon.io/v3/reference/tickers/");
    request.append(ticker);
    request.append("?");
    match date {
        Some(d) => {
            request.append(d.to_text().as_str());
            request.append("&");
        },
        None => {},
    }
    request.append("apiKey=");
    request.append(api_key);
    assert(request@ =~= meta_request_text(ticker@, api_key@, day_of(date)));
    request
}

/// What an answer of Polygon amounts to: the error that it reports where the
/// status is `ERROR`, and its results otherwise.
pub fn response_outcome<T>(status: &str, error: String, results: T) -> (r: Result<T, FetchError>)
    ensures
        status@ == "ERROR"@ ==> (r matches Err(e) && e.message == error),
        status@ != "ERROR"@ ==> r == Ok::<T, FetchError>(results),
{
    if same_text(status, "ERROR") {
        Err(FetchError { message: error })
    } else {
        Ok(results)
    }
}

/// The address of the headquarters of a company.
#[derive(Debug)]
pub struct Address {
    pub address1: String,
    pub city: String,
    pub postal_code: String,
    pub state: String,
}

impl Default for Address {
    /// The address of which nothing is known: four empty texts.
    fn default() -> (r: Self)
        ensures
            r.address1@.len() == 0,
            r.city@.len() == 0,
            r.postal_code@.len() == 0,
            r.state@.len() == 0,
    {
        Address {
            address1: String::new(),
            city: String::new(),
            postal_code: String::new(),
            state: String::new(),
        }
    }
}

/// Where an asset is traded.
#[derive(Clone, Copy, Debug, PartialEq, Eq, Structural)]
pub enum Locale {
    US,
    Global,
    /// The answer names no locale.
    Unknown,
}

impl Default for Locale {
    fn default() -> (r: Self)
        ensures
            r == Locale::Unknown,
    {
        Locale::Unknown
    }
}

impl Locale {
    /// The locale that a text of an answer names, if it names one: the name
    /// of the locale, or the lower-case word that Polygon sends.
    pub open spec fn named_by(text: Seq<char>) -> Option<Locale> {
        if text == "US"@ || text == "us"@ {
            Some(Locale::US)
        } else if text == "Global"@ || text == "global"@ {
            Some(Locale::Global)
        } else if text == "Unknown"@ {
            Some(Locale::Unknown)
        } else {
            None
        }
    }

    /// Reads a locale from the text of an answer.
    pub fn from_text(text: &str) -> (r: Option<Locale>)
        ensures
            r == Self::named_by(text@),
    {
        if same_text(text, "US") || same_text(text, "us") {
            Some(Locale::US)
        } else if same_text(text, "Global") || same_text(text, "global") {
            Some(Locale::Global)
        } else if same_text(text, "Unknown") {
            Some(Locale::Unknown)
        } else {
            None
        }
    }
}

/// The market on which an asset is traded.
#[derive(Clone, Copy, Debug, PartialEq, Eq, Structural)]
pub enum MarketType {
    Stocks,
    Crypto,
    FX,
    OTC,
    Indices,
    /// The answer names no market.
    Unknown,
}

impl Default for MarketType {
    fn default() -> (r: Self)
        ensures
            r == MarketType::Unknown,
    {
        MarketType::Unknown
    }
}

impl MarketType {
    /// The market that a text of an answer names, if it names one: the name
    /// of the market, or the lower-case word that Polygon sends.
    pub open spec fn named_by(text: Seq<char>) -> Option<MarketType> {
        if text == "Stocks"@ || text == "stocks"@ {
            Some(MarketType::Stocks)
        } else if text == "Crypto"@ || text == "crypto"@ {
            Some(MarketType::Crypto)
        } else if text == "FX"@ || text == "fx"@ {
            Some(MarketType::FX)
        } else if text == "OTC"@ || text == "otc"@ {
            Some(MarketType::OTC)
        } else if text == "Indices"@ || text == "indices"@ {
            Some(MarketType::Indices)
        } else if text == "Unknown"@ {
            Some(MarketType::Unknown)
        } else {
            None
        }
    }

    /// Reads a market from the text of an answer.
    pub fn from_text(text: &str) -> (r: Option<MarketType>)
        ensures
            r == Self::named_by(text@),
    {
        if same_text(text, "Stocks") || same_text(text, "stocks") {
            Some(MarketType::Stocks)
        } else if same_text(text, "Crypto") || same_text(text, "crypto") {
            Some(MarketType::Crypto)
        } else if same_text(text, "FX") || same_text(text, "fx") {
            Some(MarketType::FX)
        } else if same_text(text, "OTC") || same_text(text, "otc") {
            Some(MarketType::OTC)
        } else if same_text(text, "Indices") || same_text(text, "indices") {
            Some(MarketType::Indices)
        } else if same_text(text, "Unknown") {
            Some(MarketType::Unknown)
        } else {
            None
        }
    }
}

} // verus!
