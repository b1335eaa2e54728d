//! End-of-day prices, as Tiingo sends them in a table of comma-separated
//! values.

use crate::calendar::{day_in_range, day_of, iso_date_day, iso_date_text, Date};
use crate::csv::{fields_of, lines_of, parse_whole_number, split_fields, split_lines, whole_number};
use crate::error::FetchError;
use crate::resolver::texts;
use crate::text::same_text;
use vstd::prelude::*;
use vstd::string::StringExecFns;

verus! {

/// How often the prices are sampled.
#[derive(Clone, Copy, Debug, PartialEq, Eq, Structural)]
pub enum ResampleFreq {
    DAILY,
    WEEKLY,
    MONTHLY,
    ANNUALLY,
}

impl ResampleFreq {
    /// The word of the request for this frequency.
    pub open spec fn word(self) -> Seq<char> {
        match self {
            ResampleFreq::DAILY => "daily"@,
            ResampleFreq::WEEKLY => "weekly"@,
            ResampleFreq::MONTHLY => "monthly"@,
            ResampleFreq::ANNUALLY => "annually"@,
        }
    }

    /// The word of the request for this frequency.
    pub fn as_str(&self) -> (r: &'static str)
        ensures
            r@ == self.word(),
    {
        match self {
            ResampleFreq::DAILY => "daily",
            ResampleFreq::WEEKLY => "weekly",
            ResampleFreq::MONTHLY => "monthly",
            ResampleFreq::ANNUALLY => "annually",
        }
    }
}

/// The request for the end-of-day prices of `ticker` as a table, with the
/// first day, the last day and the frequency where they are given.
pub open spec fn eod_request_text(
    ticker: Seq<char>,
    api_key: Seq<char>,
    start: Option<int>,
    end: Option<int>,
    resample_freq: Option<ResampleFreq>,
) -> Seq<char> {
    let head = "https://api.tiingo.com/tiingo/daily/"@ + ticker + "/prices?format=csv&token="@
        + api_key;
    let from = match start {
        Some(day) => head + "&startDate="@ + iso_date_text(day),
        None => head,
    };
    let to = match end {
        Some(day) => from + "&endDate="@ + iso_date_text(day),
        None => from,
    };
    match resample_freq {
        Some(freq) => to + "&resampleFreq="@ + freq.word(),
        None => to,
    }
}

/// Writes the request for the end-of-day prices of `ticker`.
pub fn eod_request(
    ticker: &str,
    api_key: &str,
    start_date: &Option<Date>,
    end_date: &Option<Date>,
    resample_freq: &Option<ResampleFreq>,
) -> (r: String)
    ensures
        r@ == eod_request_text(ticker@, api_key@, day_of(*start_date), day_of(*end_date), *resample_freq),
{
    let mut request = String::from_str("https://api.tiingo.com/tiingo/daily/");
    request.append(ticker);
    request.append("/prices?format=csv&token=");
    request.append(api_key);
    let ghost head = request@;
    assert(head =~= "https://api.tiingo.com/tiingo/daily/"@ + ticker@ + "/prices?format=csv&token="@
        + api_key@);
    match start_date {
        Some(date) => {
            request.append("&startDate=");
            request.append(date.to_text().as_str());
            assert(request@ =~= head + "&startDate="@ + iso_date_text(date@));
        },
        None => {},
    }
    let ghost from = request@;
    match end_date {
        Some(date) => {
            request.append("&endDate=");
            request.append(date.to_text().as_str());
            assert(request@ =~= from + "&endDate="@ + iso_date_text(date@));
        },
        None => {},
    }
    let ghost to = request@;
    match resample_freq {
        Some(freq) => {
            request.append("&resampleFreq=");
            request.append(freq.as_str());
            assert(request@ =~= to + "&resampleFreq="@ + freq.word());
        },
        None => {},
    }
    request
}

/// Where each column of the table stands, counted from 0.
#[derive(Clone, Copy, Debug, PartialEq, Eq, Structural)]
pub struct EodColumns {
    pub date: usize,
    pub open: usize,
    pub high: usize,
    pub low: usize,
    pub close: usize,
    pub volume: usize,
    pub adj_open: usize,
    pub adj_high: usize,
    pub adj_low: usize,
    pub adj_close: usize,
    pub adj_volume: usize,
    pub dividend: usize,
    pub split: usize,
}

/// Whether a table of Tiingo has a column of this name.
pub open spec fn is_column_name(name: Seq<char>) -> bool {
    ||| name == "date"@
    ||| name == "close"@
    ||| name == "high"@
    ||| name == "low"@
    ||| name == "open"@
    ||| name == "volume"@
    ||| name == "adjClose"@
    ||| name == "adjHigh"@
    ||| name == "adjLow"@
    ||| name == "adjOpen"@
    ||| name == "adjVolume"@
    ||| name == "divCash"@
    ||| name == "splitFactor"@
}

/// Whether every field of a header names a column.
pub open spec fn is_header(header: Seq<Seq<char>>) -> bool {
    forall|i: int| 0 <= i < header.len() ==> is_column_name(#[trigger] header[i])
}

/// Where the column `name` stands in a header: at its last occurrence, and
/// at 0 where the header does not name it.
pub open spec fn position(header: Seq<Seq<char>>, name: Seq<char>) -> int
    decreases header.len(),
{
    if header.len() == 0 {
        0
    } else if header.last() == name {
        header.len() - 1
    } else {
        position(header.drop_last(), name)
    }
}

/// The names of the columns, as numbers: no two names have the same.
pub open spec fn column_number(name: Seq<char>) -> int {
    if name == "date"@ {
        1
    } else if name == "close"@ {
        2
    } else if name == "high"@ {
        3
    } else if name == "low"@ {
        4
    } else if name == "open"@ {
        5
    } else if name == "volume"@ {
        6
    } else if name == "adjClose"@ {
        7
    } else if name == "adjHigh"@ {
        8
    } else if name == "adjLow"@ {
        9
    } else if name == "adjOpen"@ {
        10
    } else if name == "adjVolume"@ {
        11
    } else if name == "divCash"@ {
        12
    } else if name == "splitFactor"@ {
        13
    } else {
        0
    }
}

/// The thirteen names of columns are thirteen different texts.
pub proof fn lemma_column_names_differ()
    ensures
        column_number("date"@) == 1,
        column_number("close"@) == 2,
        column_number("high"@) == 3,
        column_number("low"@) == 4,
        column_number("open"@) == 5,
        column_number("volume"@) == 6,
        column_number("adjClose"@) == 7,
        column_number("adjHigh"@) == 8,
        column_number("adjLow"@) == 9,
        column_number("adjOpen"@) == 10,
        column_number("adjVolume"@) == 11,
        column_number("divCash"@) == 12,
        column_number("splitFactor"@) == 13,
{
    reveal_strlit("date");
    reveal_strlit("close");
    reveal_strlit("high");
    reveal_strlit("low");
    reveal_strlit("open");
    reveal_strlit("volume");
    reveal_strlit("adjClose");
    reveal_strlit("adjHigh");
    reveal_strlit("adjLow");
    reveal_strlit("adjOpen");
    reveal_strlit("adjVolume");
    reveal_strlit("divCash");
    reveal_strlit("splitFactor");
    assert("date"@[0] == 'd' && "close"@[0] == 'c' && "high"@[0] == 'h' && "low"@[0] == 'l' && "open"@[0]
        == 'o' && "volume"@[0] == 'v' && "divCash"@[0] == 'd' && "splitFactor"@[0] == 's');
    assert("adjClose"@[3] == 'C' && "adjHigh"@[3] == 'H' && "adjLow"@[3] == 'L' && "adjOpen"@[3] == 'O'
        && "adjVolume"@[3] == 'V');
    assert("date"@.len() == 4 && "divCash"@.len() == 7 && "adjClose"@[0] == 'a');
}

impl EodColumns {
    /// Whether these are the places of the columns of `header`.
    pub open spec fn matches_header(self, header: Seq<Seq<char>>) -> bool {
        &&& self.date == position(header, "date"@)
        &&& self.open == position(header, "open"@)
        &&& self.high == position(header, "high"@)
        &&& self.low == position(header, "low"@)
        &&& self.close == position(header, "close"@)
        &&& self.volume == position(header, "volume"@)
        &&& self.adj_open == position(header, "adjOpen"@)
        &&& self.adj_high == position(header, "adjHigh"@)
        &&& self.adj_low == position(header, "adjLow"@)
        &&& self.adj_close == position(header, "adjClose"@)
        &&& self.adj_volume == position(header, "adjVolume"@)
        &&& self.dividend == position(header, "divCash"@)
        &&& self.split == position(header, "splitFactor"@)
    }

    /// Whether a row of `fields` has a field for every column.
    pub open spec fn fit(self, fields: Seq<Seq<char>>) -> bool {
        &&& self.date < fields.len()
        &&& self.open < fields.len()
        &&& self.high < fields.len()
        &&& self.low < fields.len()
        &&& self.close < fields.len()
        &&& self.volume < fields.len()
        &&& self.adj_open < fields.len()
        &&& self.adj_high < fields.len()
        &&& self.adj_low < fields.len()
        &&& self.adj_close < fields.len()
        &&& self.adj_volume < fields.len()
        &&& self.dividend < fields.len()
        &&& self.split < fields.len()
    }

    /// Whether a row of `fields` can be read: it has a field for every
    /// column, its date is a date and its volumes are whole numbers.
    pub open spec fn can_read(self, fields: Seq<Seq<char>>) -> bool {
        &&& self.fit(fields)
        &&& iso_date_day(fields[self.date as int]) matches Some(day) && day_in_range(day)
        &&& whole_number(fields[self.volume as int]) is Some
        &&& whole_number(fields[self.adj_volume as int]) is Some
    }

    /// Whether `row` holds what the row of `fields` says.
    pub open spec fn reads_as(self, fields: Seq<Seq<char>>, row: EodRow) -> bool {
        &&& Some(row.date@) == iso_date_day(fields[self.date as int])
        &&& row.open@ == fields[self.open as int]
        &&& row.high@ == fields[self.high as int]
        &&& row.low@ == fields[self.low as int]
        &&& row.close@ == fields[self.close as int]
        &&& Some(row.volume) == whole_number(fields[self.volume as int])
        &&& row.adj_open@ == fields[self.adj_open as int]
        &&& row.adj_high@ == fields[self.adj_high as int]
        &&& row.adj_low@ == fields[self.adj_low as int]
        &&& row.adj_close@ == fields[self.adj_close as int]
        &&& Some(row.adj_volume) == whole_number(fields[self.adj_volume as int])
        &&& row.dividend@ == fields[self.dividend as int]
        &&& row.split@ == fields[self.split as int]
    }
}

/// Finds the columns of a table in its header. There are none where a field
/// of the header names no column.
pub fn read_header(header: &Vec<String>) -> (r: Option<EodColumns>)
    ensures
        r is Some <==> is_header(texts(header@)),
        r matches Some(columns) ==> columns.matches_header(texts(header@)),
{
    let ghost names = texts(header@);
    let mut c = EodColumns {
        date: 0,
        open: 0,
        high: 0,
        low: 0,
        close: 0,
        volume: 0,
        adj_open: 0,
        adj_high: 0,
        adj_low: 0,
        adj_close: 0,
        adj_volume: 0,
        dividend: 0,
        split: 0,
    };
    let mut i: usize = 0;
    while i < header.len()
        invariant
            i <= header.len(),
            names == texts(header@),
            is_header(names.take(i as int)),
            c.matches_header(names.take(i as int)),
        decreases header.len() - i,
    {
        let name = header[i].as_str();
        proof {
            assert(names.take(i + 1).drop_last() == names.take(i as int));
            assert(names.take(i + 1).last() == name@);
            lemma_column_names_differ();
        }
        if same_text(name, "date") {
            c.date = i;
        } else if same_text(name, "close") {
            c.close = i;
        } else if same_text(name, "high") {
            c.high = i;
        } else if same_text(name, "low") {
            c.low = i;
        } else if same_text(name, "open") {
            c.open = i;
        } else if same_text(name, "volume") {
            c.volume = i;
        } else if same_text(name, "adjClose") {
            c.adj_close = i;
        } else if same_text(name, "adjHigh") {
            c.adj_high = i;
        } else if same_text(name, "adjLow") {
            c.adj_low = i;
        } else if same_text(name, "adjOpen") {
            c.adj_open = i;
        } else if same_text(name, "adjVolume") {
            c.adj_volume = i;
        } else if same_text(name, "divCash") {
            c.dividend = i;
        } else if same_text(name, "splitFactor") {
            c.split = i;
        } else {
            proof {
                assert(!is_column_name(names[i as int]));
            }
            return None;
        }
        proof {
            assert forall|j: int| 0 <= j < i + 1 implies is_column_name(
                #[trigger] names.take(i + 1)[j],
            ) by {
                if j < i {
                    assert(names.take(i as int)[j] == names.take(i + 1)[j]);
                }
            }
        }
        i = i + 1;
    }
    proof {
        assert(names.take(i as int) == names);
    }
    Some(c)
}

/// One row of the table. The prices, the dividend and the split factor are
/// kept as the decimal text that was sent.
#[derive(Clone, Debug, PartialEq, Eq)]
pub struct EodRow {
    pub date: Date,
    pub open: String,
    pub high: String,
    pub low: String,
    pub close: String,
    pub volume: u64,
    pub adj_open: String,
    pub adj_high: String,
    pub adj_low: String,
    pub adj_close: String,
    pub adj_volume: u64,
    pub dividend: String,
    pub split: String,
}

/// Reads one row of the table. There is none where the row cannot be read.
pub fn read_row(columns: &EodColumns, fields: &Vec<String>) -> (r: Option<EodRow>)
    ensures
        r is Some <==> columns.can_read(texts(fields@)),
        r matches Some(row) ==> columns.reads_as(texts(fields@), row),
{
    let n = fields.len();
    let ghost f = texts(fields@);
    if !(columns.date < n && columns.open < n && columns.high < n && columns.low < n && columns.close
        < n && columns.volume < n && columns.adj_open < n && columns.adj_high < n && columns.adj_low
        < n && columns.adj_close < n && columns.adj_volume < n && columns.dividend < n
        && columns.split < n) {
        return None;
    }
    assert(f[columns.date as int] == fields@[columns.date as int]@);
    assert(f[columns.volume as int] == fields@[columns.volume as int]@);
    assert(f[columns.adj_volume as int] == fields@[columns.adj_volume as int]@);
    let date = match Date::parse(fields[columns.date].as_str()) {
        Some(date) => date,
        None => {
            return None;
        },
    };
    let volume = match parse_whole_number(fields[columns.volume].as_str()) {
        Some(volume) => volume,
        None => {
            return None;
        },
    };
    let adj_volume = match parse_whole_number(fields[columns.adj_volume].as_str()) {
        Some(volume) => volume,
        None => {
            return None;
        },
    };
    Some(
        EodRow {
            date,
            open: fields[columns.open].clone(),
            high: fields[columns.high].clone(),
            low: fields[columns.low].clone(),
            close: fields[columns.close].clone(),
            volume,
            adj_open: fields[columns.adj_open].clone(),
            adj_high: fields[columns.adj_high].clone(),
            adj_low: fields[columns.adj_low].clone(),
            adj_close: fields[columns.adj_close].clone(),
            adj_volume,
            dividend: fields[columns.dividend].clone(),
            split: fields[columns.split].clone(),
        },
    )
}

/// The places of the columns of a header.
pub open spec fn columns_of(header: Seq<Seq<char>>) -> EodColumns {
    EodColumns {
        date: position(header, "date"@) as usize,
        open: position(header, "open"@) as usize,
        high: position(header, "high"@) as usize,
        low: position(header, "low"@) as usize,
        close: position(header, "close"@) as usize,
        volume: position(header, "volume"@) as usize,
        adj_open: position(header, "adjOpen"@) as usize,
        adj_high: position(header, "adjHigh"@) as usize,
        adj_low: position(header, "adjLow"@) as usize,
        adj_close: position(header, "adjClose"@) as usize,
        adj_volume: position(header, "adjVolume"@) as usize,
        dividend: position(header, "divCash"@) as usize,
        split: position(header, "splitFactor"@) as usize,
    }
}

/// The message of the failure of a table that cannot be read.
pub const UNREADABLE_TABLE: &'static str = "Unknown data in response. Check Tiingo API reference.";

/// Whether a table can be read: it is empty, or its first line is a header
/// and every line after it is a row that can be read.
pub open spec fn is_table(lines: Seq<Seq<char>>) -> bool {
    lines.len() == 0 || (is_header(fields_of(lines[0])) && forall|i: int|
        1 <= i < lines.len() ==> columns_of(fields_of(lines[0])).can_read(
            fields_of(#[trigger] lines[i]),
        ))
}

/// Whether `outcome` is what the table of an answer reads as: one row for
/// each line after the header, in order, or a failure where the table cannot
/// be read.
pub open spec fn is_eod_of(response: Seq<char>, outcome: Result<Vec<EodRow>, FetchError>) -> bool {
    let lines = lines_of(response);
    if is_table(lines) {
        &&& outcome matches Ok(rows)
        &&& rows@.len() == if lines.len() == 0 {
            0
        } else {
            lines.len() - 1
        }
        &&& forall|i: int|
            0 <= i < rows@.len() ==> columns_of(fields_of(lines[0])).reads_as(
                fields_of(lines[i + 1]),
                #[trigger] rows@[i],
            )
    } else {
        outcome matches Err(e) && e.message@ == UNREADABLE_TABLE@
    }
}

/// The failure of a table that cannot be read.
fn unreadable() -> (r: FetchError)
    ensures
        r.message@ == UNREADABLE_TABLE@,
{
    FetchError { message: String::from_str(UNREADABLE_TABLE) }
}

/// Reads the end-of-day prices from the table that Tiingo answers with: the
/// first line names the columns, every other line is one day.
pub fn parse_eod(response: &str) -> (r: Result<Vec<EodRow>, FetchError>)
    ensures
        is_eod_of(response@, r),
{
    let lines = split_lines(response);
    let ghost all = texts(lines@);
    let mut rows: Vec<EodRow> = Vec::new();
    if lines.len() == 0 {
        return Ok(rows);
    }
    assert(all[0] == lines@[0]@);
    let header = split_fields(lines[0].as_str());
    let ghost names = texts(header@);
    let columns = match read_header(&header) {
        Some(columns) => columns,
        None => {
            return Err(unreadable());
        },
    };
    assert(columns == columns_of(names));
    let mut i: usize = 1;
    while i < lines.len()
        invariant
            1 <= i <= lines.len(),
            all == texts(lines@),
            all == lines_of(response@),
            names == fields_of(all[0]),
            is_header(names),
            columns == columns_of(names),
            rows@.len() == i - 1,
            forall|j: int| 1 <= j < i ==> columns.can_read(fields_of(#[trigger] all[j])),
            forall|j: int|
                0 <= j < rows@.len() ==> columns.reads_as(fields_of(all[j + 1]), #[trigger] rows@[j]),
        decreases lines.len() - i,
    {
        assert(all[i as int] == lines@[i as int]@);
        let fields = split_fields(lines[i].as_str());
        match read_row(&columns, &fields) {
            Some(row) => {
                rows.push(row);
            },
            None => {
                return Err(unreadable());
            },
        }
        i = i + 1;
    }
    Ok(rows)
}

} // verus!
