//! Candle data: the observations themselves, and the rule by which fetched
//! observations are merged into what is stored.

use crate::api_managers::{get_managers_in_priority, priority_list, Provider};
use crate::calendar::{day_in_range, day_of_timestamp, whole_days, Date, Lookback};
use crate::error::{FetchError, StoreError, TaskError};
use crate::polygon::DEFAULT_POLYGON_MAX_HISTORICAL_WEEKS;
use crate::text::same_text;
use std::collections::HashSet;
use vstd::prelude::*;

verus! {

/// The collection that holds the candles of a granularity in days.
pub const DAY_CANDLE_COLLECTION: &'static str = "day_candle";

/// The collection that holds the candles of a granularity in hours.
pub const HOUR_CANDLE_COLLECTION: &'static str = "hour_candle";

/// The collection that holds the candles of a granularity in minutes.
pub const MINUTE_CANDLE_COLLECTION: &'static str = "minute_candle";

/// The bucket size of stored observations: a unit and a multiplier.
#[derive(Clone, Copy, Debug, PartialEq, Eq, Structural)]
pub enum Granularity {
    Days(i32),
    Hours(i32),
    Minutes(i32),
}

impl Granularity {
    /// The name of the collection that holds the observations of this
    /// granularity. Each unit has a collection of its own.
    pub open spec fn collection_text(self) -> Seq<char> {
        match self {
            Granularity::Days(_) => DAY_CANDLE_COLLECTION@,
            Granularity::Hours(_) => HOUR_CANDLE_COLLECTION@,
            Granularity::Minutes(_) => MINUTE_CANDLE_COLLECTION@,
        }
    }

    /// The name of the collection that holds the observations of this
    /// granularity.
    pub fn collection_name(&self) -> (r: &'static str)
        ensures
            r@ == self.collection_text(),
    {
        match self {
            Granularity::Days(_) => DAY_CANDLE_COLLECTION,
            Granularity::Hours(_) => HOUR_CANDLE_COLLECTION,
            Granularity::Minutes(_) => MINUTE_CANDLE_COLLECTION,
        }
    }
}

/// Each unit has a collection of its own: no two units share a name.
pub proof fn law_collections_differ(a: Granularity, b: Granularity)
    ensures
        a.collection_text() == b.collection_text() <==> (a is Days <==> b is Days) && (a is Hours
            <==> b is Hours),
{
    reveal_strlit("day_candle");
    reveal_strlit("hour_candle");
    reveal_strlit("minute_candle");
    assert(DAY_CANDLE_COLLECTION@[0] == 'd');
    assert(HOUR_CANDLE_COLLECTION@[0] == 'h');
    assert(MINUTE_CANDLE_COLLECTION@[0] == 'm');
}

/// A price, carried as the bit pattern of an IEEE 754 double. Prices pass
/// through the library untouched: nothing here computes on them.
#[derive(Clone, Copy, Debug, PartialEq, Eq, Structural)]
pub struct Price {
    pub bits: u64,
}

/// One observation of an instrument: prices, volume and transaction count at a
/// point in time, given in seconds since 1970-01-01 00:00:00 UTC.
#[derive(Clone, Debug, PartialEq, Eq)]
pub struct CandleData {
    pub ticker: String,
    pub timestamp: i64,
    pub open: Price,
    pub close: Price,
    pub high: Price,
    pub low: Price,
    pub volume: i64,
    pub num_transactions: i64,
}

/// Whether a timestamp lies after the watermark. Without a watermark every
/// timestamp does.
pub open spec fn is_newer(timestamp: int, watermark: Option<i64>) -> bool {
    match watermark {
        Some(w) => timestamp > w,
        None => true,
    }
}

/// Whether some observation of `s` has the timestamp `t`.
pub open spec fn has_timestamp(s: Seq<CandleData>, t: int) -> bool {
    exists|j: int| 0 <= j < s.len() && #[trigger] s[j].timestamp == t
}

/// Whether an observation belongs to `ticker` and lies after the watermark.
pub open spec fn is_accepted(c: CandleData, ticker: Seq<char>, watermark: Option<i64>) -> bool {
    c.ticker@ == ticker && is_newer(c.timestamp as int, watermark)
}

/// What is kept of fetched observations: those of `ticker` that lie after the
/// watermark, the first one of each timestamp, in the order in which they
/// came.
pub open spec fn fresh(fetched: Seq<CandleData>, ticker: Seq<char>, watermark: Option<i64>) -> Seq<
    CandleData,
>
    decreases fetched.len(),
{
    if fetched.len() == 0 {
        Seq::empty()
    } else {
        let rest = fresh(fetched.drop_last(), ticker, watermark);
        let c = fetched.last();
        if is_accepted(c, ticker, watermark) && !has_timestamp(rest, c.timestamp as int) {
            rest.push(c)
        } else {
            rest
        }
    }
}

/// The timestamps of the observations of `s`.
pub open spec fn timestamps(s: Seq<CandleData>) -> Set<i64> {
    Set::new(|t: i64| has_timestamp(s, t as int))
}

/// Keeps of fetched observations those of `ticker` that lie after the
/// watermark, the first one of each timestamp.
pub fn fresh_observations(fetched: Vec<CandleData>, ticker: &str, watermark: Option<i64>) -> (r: Vec<
    CandleData,
>)
    ensures
        r@ == fresh(fetched@, ticker@, watermark),
{
    broadcast use vstd::std_specs::hash::group_hash_axioms;

    let mut out: Vec<CandleData> = Vec::new();
    let mut seen: HashSet<i64> = HashSet::new();
    let ghost all = fetched@;
    for c in it: fetched
        invariant
            it.seq() == all,
            out@ == fresh(all.take(it.index()), ticker@, watermark),
            seen@ == timestamps(out@),
    {
        proof {
            let i = it.index();
            assert(all.take(i + 1).drop_last() == all.take(i));
            assert(all.take(i + 1).last() == c);
        }
        let newer = match watermark {
            Some(w) => c.timestamp > w,
            None => true,
        };
        if newer && same_text(c.ticker.as_str(), ticker) && !seen.contains(&c.timestamp) {
            proof {
                lemma_timestamps_push(out@, c);
            }
            seen.insert(c.timestamp);
            out.push(c);
        }
    }
    proof {
        assert(all.take(all.len() as int) == all);
    }
    out
}

/// The timestamps of a list with one more observation are those of the list
/// and that of the observation.
proof fn lemma_timestamps_push(s: Seq<CandleData>, c: CandleData)
    ensures
        timestamps(s.push(c)) == timestamps(s).insert(c.timestamp),
{
    let a = timestamps(s.push(c));
    let b = timestamps(s).insert(c.timestamp);
    assert forall|t: i64| a.contains(t) == b.contains(t) by {
        if has_timestamp(s.push(c), t as int) {
            let j = choose|j: int| 0 <= j < s.push(c).len() && #[trigger] s.push(c)[j].timestamp == t;
            if j < s.len() {
                assert(s[j].timestamp == t);
            }
        }
        if has_timestamp(s, t as int) {
            let j = choose|j: int| 0 <= j < s.len() && #[trigger] s[j].timestamp == t;
            assert(s.push(c)[j].timestamp == t);
        }
        if t == c.timestamp {
            assert(s.push(c)[s.len() as int].timestamp == t);
        }
    }
    assert(a =~= b);
}

/// The range of dates to ask a provider for.
#[derive(Clone, Debug, PartialEq, Eq)]
pub struct FetchPlan {
    pub ticker: String,
    pub granularity: Granularity,
    pub start: Date,
    pub end: Date,
}

/// The first day of a fetch, counted from 1970-01-01: the day of the latest
/// stored observation, or the day that lies the look-back before today where
/// nothing is stored. There is none where today less the look-back, or the
/// day of the latest observation, lies outside the range of dates.
pub open spec fn plan_start(latest: Option<i64>, today: int, lookback: int) -> Option<int> {
    let fallback = today - whole_days(lookback);
    if !day_in_range(fallback) {
        None
    } else {
        match latest {
            Some(timestamp) => if day_in_range(day_of_timestamp(timestamp as int)) {
                Some(day_of_timestamp(timestamp as int))
            } else {
                None
            },
            None => Some(fallback),
        }
    }
}

/// A plan never starts after it ends, where the look-back is not negative
/// and the latest stored observation does not lie after today.
pub proof fn law_plan_is_ordered(latest: Option<i64>, today: int, lookback: int)
    requires
        lookback >= 0,
        latest matches Some(timestamp) ==> day_of_timestamp(timestamp as int) <= today,
    ensures
        plan_start(latest, today, lookback) matches Some(start) ==> start <= today,
{
}

/// The timestamp of an observation, if there is one.
pub open spec fn timestamp_of(latest: Option<CandleData>) -> Option<i64> {
    match latest {
        Some(c) => Some(c.timestamp),
        None => None,
    }
}

/// Whether `outcome` is the plan for `ticker`: from the first day that
/// `plan_start` gives up to today, or a range error where it gives none.
pub open spec fn is_planned(
    ticker: Seq<char>,
    granularity: Granularity,
    latest: Option<i64>,
    today: Date,
    lookback: int,
    outcome: Result<FetchPlan, TaskError>,
) -> bool {
    match plan_start(latest, today@, lookback) {
        Some(start) => {
            &&& outcome matches Ok(p)
            &&& p.ticker@ == ticker
            &&& p.granularity == granularity
            &&& p.start@ == start
            &&& p.end == today
        },
        None => outcome matches Err(TaskError::Range),
    }
}

/// Plans the fetch for a ticker: from the day of the latest stored observation,
/// or from the look-back before today where nothing is stored, up to today.
/// Fails with a range error where the start cannot be computed.
pub fn plan(
    ticker: &str,
    granularity: Granularity,
    latest: &Option<CandleData>,
    today: Date,
    max_lookback: Lookback,
) -> (r: Result<FetchPlan, TaskError>)
    ensures
        is_planned(ticker@, granularity, timestamp_of(*latest), today, max_lookback@, r),
{
    let fallback = match today.checked_sub(&max_lookback) {
        Some(day) => day,
        None => {
            return Err(TaskError::Range);
        },
    };
    let start = match latest {
        Some(c) => match Date::of_timestamp(c.timestamp) {
            Some(day) => day,
            None => {
                return Err(TaskError::Range);
            },
        },
        None => fallback,
    };
    Ok(FetchPlan { ticker: ticker.to_owned(), granularity, start, end: today })
}

/// The position of the first provider that answered, if any did.
pub open spec fn first_success(results: Seq<Result<Vec<CandleData>, FetchError>>) -> Option<int>
    decreases results.len(),
{
    if results.len() == 0 {
        None
    } else if results.first() is Ok {
        Some(0)
    } else {
        match first_success(results.drop_first()) {
            Some(k) => Some(k + 1),
            None => None,
        }
    }
}

/// The first success stands at a position of the list, holds an answer, and
/// every provider before it failed; there is none only where every provider
/// failed.
pub proof fn lemma_first_success(results: Seq<Result<Vec<CandleData>, FetchError>>)
    ensures
        (match first_success(results) {
            Some(k) => 0 <= k < results.len() && results[k] is Ok && forall|j: int|
                0 <= j < k ==> #[trigger] results[j] is Err,
            None => forall|j: int| 0 <= j < results.len() ==> #[trigger] results[j] is Err,
        }),
    decreases results.len(),
{
    if results.len() > 0 && results.first() is Err {
        let rest = results.drop_first();
        lemma_first_success(rest);
        match first_success(rest) {
            Some(k) => {
                assert forall|j: int| 0 <= j < k + 1 implies #[trigger] results[j] is Err by {
                    if j > 0 {
                        assert(rest[j - 1] is Err);
                    }
                }
            },
            None => {
                assert forall|j: int| 0 <= j < results.len() implies #[trigger] results[j] is Err by {
                    if j > 0 {
                        assert(rest[j - 1] is Err);
                    }
                }
            },
        }
    }
}

/// Whether `outcome` is what the answers of the providers merge to: what is
/// kept of the first answer that is no failure, or no data where every
/// provider failed.
pub open spec fn is_reconciled(
    ticker: Seq<char>,
    results: Seq<Result<Vec<CandleData>, FetchError>>,
    watermark: Option<i64>,
    outcome: Result<Vec<CandleData>, TaskError>,
) -> bool {
    match first_success(results) {
        Some(k) => outcome matches Ok(kept) && kept@ == fresh(results[k]->Ok_0@, ticker, watermark),
        None => outcome matches Err(TaskError::NoData { ticker: t }) && t@ == ticker,
    }
}

/// Fallback: where the provider at the position `k` is the first that did not
/// fail, the merged result is what is kept of its answer.
pub proof fn law_fallback_takes_first_answer(
    ticker: Seq<char>,
    results: Seq<Result<Vec<CandleData>, FetchError>>,
    watermark: Option<i64>,
    outcome: Result<Vec<CandleData>, TaskError>,
    k: int,
)
    requires
        is_reconciled(ticker, results, watermark, outcome),
        0 <= k < results.len(),
        results[k] is Ok,
        forall|j: int| 0 <= j < k ==> #[trigger] results[j] is Err,
    ensures
        outcome is Ok,
        outcome->Ok_0@ == fresh(results[k]->Ok_0@, ticker, watermark),
{
    lemma_first_success(results);
}

/// Fallback: what the providers after the first one that did not fail
/// returned, or would have returned, has no part in the merged result.
pub proof fn law_later_providers_do_not_matter(
    first: Seq<Result<Vec<CandleData>, FetchError>>,
    second: Seq<Result<Vec<CandleData>, FetchError>>,
    k: int,
)
    requires
        first_success(first) == Some(k),
        k < second.len(),
        forall|j: int| 0 <= j <= k ==> #[trigger] first[j] == second[j],
    ensures
        first_success(second) == Some(k),
{
    lemma_first_success(first);
    lemma_first_success(second);
    assert(second[k] == first[k]);
    match first_success(second) {
        Some(other) => {
            if other < k {
                assert(first[other] == second[other]);
            }
        },
        None => {},
    }
}

/// Merges what the providers returned for one request, given in the order of
/// their priority: the answer of the first provider that did not fail is
/// taken, whatever the providers after it returned, and of it the
/// observations of `ticker` after the watermark are kept, the first one of each
/// timestamp. Where every provider failed there is no data.
pub fn reconcile_timeseries(
    ticker: &str,
    results: Vec<Result<Vec<CandleData>, FetchError>>,
    watermark: Option<i64>,
) -> (r: Result<Vec<CandleData>, TaskError>)
    ensures
        is_reconciled(ticker@, results@, watermark, r),
{
    let ghost all = results@;
    for result in it: results
        invariant
            it.seq() == all,
            forall|j: int| 0 <= j < it.index() ==> #[trigger] all[j] is Err,
    {
        proof {
            lemma_first_success(all);
        }
        match result {
            Ok(fetched) => {
                return Ok(fresh_observations(fetched, ticker, watermark));
            },
            Err(_) => {},
        }
    }
    proof {
        lemma_first_success(all);
    }
    Err(TaskError::NoData { ticker: ticker.to_owned() })
}

/// The task that brings the stored observations of one ticker up to date:
/// it asks the store for the latest observation, fetches what came after it
/// from the providers, and stores what is new.
#[derive(Debug)]
pub struct UpdateCandleDataTask {
    pub ticker: String,
    pub granularity: Granularity,
    /// How far back to fetch where nothing is stored yet.
    pub max_historical_duration: Lookback,
}

/// Where an update task stands between two events.
#[derive(Debug)]
pub enum UpdateState {
    /// Nothing has been asked for yet.
    Start,
    /// The store has been asked for the latest observation.
    AwaitLatest { today: Date },
    /// The provider at the position `provider` of the priority list has been
    /// asked for the range of the plan.
    AwaitFetch { plan: FetchPlan, watermark: Option<i64>, provider: usize },
    /// The store has been asked to insert the new observations.
    AwaitInsert,
    /// The task has ended.
    Done,
}

/// What happened outside an update task.
#[derive(Debug)]
pub enum UpdateEvent {
    /// The task is started on the day `today`.
    Begin { today: Date },
    /// The store has answered the request for the latest observation.
    Latest(Result<Option<CandleData>, StoreError>),
    /// The provider that was asked has answered.
    Fetched(Result<Vec<CandleData>, FetchError>),
    /// The store has answered the request to insert.
    Inserted(Result<(), StoreError>),
}

/// What an update task asks for next.
#[derive(Debug)]
pub enum UpdateAction {
    /// Find the observation of the ticker with the greatest timestamp.
    FindLatest { collection: &'static str, ticker: String },
    /// Ask the provider for the range of the plan that the state holds.
    Fetch { provider: Provider },
    /// Insert the observations, all of them or none.
    InsertBatch { collection: &'static str, records: Vec<CandleData> },
    /// End the task with this outcome.
    Finish(Result<(), TaskError>),
}

impl UpdateCandleDataTask {
    /// The look-back of a task that is given none, in seconds.
    pub open spec fn default_lookback() -> int {
        DEFAULT_POLYGON_MAX_HISTORICAL_WEEKS * 604_800
    }

    /// Makes the task that updates the observations of `ticker` at
    /// `granularity`. Where nothing is stored yet it fetches the look-back
    /// before today; without a look-back, 260 weeks.
    pub fn new(ticker: &str, granularity: Granularity, max_historical_duration: Option<Lookback>) -> (r:
        UpdateCandleDataTask)
        ensures
            r.ticker@ == ticker@,
            r.granularity == granularity,
            r.max_historical_duration@ == (match max_historical_duration {
                Some(d) => d@,
                None => Self::default_lookback(),
            }),
    {
        let duration = match max_historical_duration {
            Some(duration) => duration,
            None => Lookback::weeks(DEFAULT_POLYGON_MAX_HISTORICAL_WEEKS).unwrap(),
        };
        UpdateCandleDataTask {
            ticker: ticker.to_owned(),
            granularity,
            max_historical_duration: duration,
        }
    }

    /// Whether the task, standing at `state` and handed `event`, goes on
    /// to `next` and asks for `action`.
    pub open spec fn allows(
        &self,
        state: UpdateState,
        event: UpdateEvent,
        next: UpdateState,
        action: UpdateAction,
    ) -> bool {
        match (state, event) {
            (UpdateState::Start, UpdateEvent::Begin { today }) => {
                &&& next == UpdateState::AwaitLatest { today }
                &&& action matches UpdateAction::FindLatest { collection, ticker }
                &&& collection@ == self.granularity.collection_text()
                &&& ticker@ == self.ticker@
            },
            (UpdateState::AwaitLatest { today }, UpdateEvent::Latest(Err(e))) => {
                &&& next is Done
                &&& action == UpdateAction::Finish(Err(TaskError::Store(e)))
            },
            (UpdateState::AwaitLatest { today }, UpdateEvent::Latest(Ok(latest))) => {
                match plan_start(timestamp_of(latest), today@, self.max_historical_duration@) {
                    None => {
                        &&& next is Done
                        &&& action == UpdateAction::Finish(Err(TaskError::Range))
                    },
                    Some(start) => {
                        &&& next matches UpdateState::AwaitFetch { plan, watermark, provider }
                        &&& plan.ticker@ == self.ticker@
                        &&& plan.granularity == self.granularity
                        &&& plan.start@ == start
                        &&& plan.end == today
                        &&& watermark == timestamp_of(latest)
                        &&& provider == 0
                        &&& action == UpdateAction::Fetch { provider: priority_list()[0] }
                    },
                }
            },
            (
                UpdateState::AwaitFetch { plan, watermark, provider },
                UpdateEvent::Fetched(Err(_)),
            ) => {
                if provider + 1 < priority_list().len() {
                    &&& next == UpdateState::AwaitFetch { plan, watermark, provider: (provider + 1) as usize }
                    &&& action == UpdateAction::Fetch { provider: priority_list()[provider + 1] }
                } else {
                    &&& next is Done
                    &&& action matches UpdateAction::Finish(Err(TaskError::NoData { ticker }))
                    &&& ticker@ == self.ticker@
                }
            },
            (
                UpdateState::AwaitFetch { plan, watermark, provider },
                UpdateEvent::Fetched(Ok(fetched)),
            ) => {
                let kept = fresh(fetched@, self.ticker@, watermark);
                if kept.len() == 0 {
                    &&& next is Done
                    &&& action == UpdateAction::Finish(Ok(()))
                } else {
                    &&& next is AwaitInsert
                    &&& action matches UpdateAction::InsertBatch { collection, records }
                    &&& collection@ == self.granularity.collection_text()
                    &&& records@ == kept
                }
            },
            (UpdateState::AwaitInsert, UpdateEvent::Inserted(Ok(_))) => {
                &&& next is Done
                &&& action == UpdateAction::Finish(Ok(()))
            },
            (UpdateState::AwaitInsert, UpdateEvent::Inserted(Err(e))) => {
                &&& next is Done
                &&& action == UpdateAction::Finish(Err(TaskError::Store(e)))
            },
            _ => {
                &&& next is Done
                &&& action == UpdateAction::Finish(Err(TaskError::OutOfTurn))
            },
        }
    }

    /// Takes the task one step on: from where it stands and what happened to
    /// where it stands next and what it asks for. An error of the store or of
    /// the date range ends the task with that error; a provider that fails
    /// hands over to the next one in the priority list, and the task ends
    /// without data when the last one has failed; a fetch that brings nothing
    /// new ends the task with success. An event that the state does not wait
    /// for ends the task.
    pub fn step(&self, state: UpdateState, event: UpdateEvent) -> (r: (UpdateState, UpdateAction))
        ensures
            self.allows(state, event, r.0, r.1),
    {
        match (state, event) {
            (UpdateState::Start, UpdateEvent::Begin { today }) => (
                UpdateState::AwaitLatest { today },
                UpdateAction::FindLatest {
                    collection: self.granularity.collection_name(),
                    ticker: self.ticker.clone(),
                },
            ),
            (UpdateState::AwaitLatest { today }, UpdateEvent::Latest(Err(e))) => (
                UpdateState::Done,
                UpdateAction::Finish(Err(TaskError::Store(e))),
            ),
            (UpdateState::AwaitLatest { today }, UpdateEvent::Latest(Ok(latest))) => {
                match plan(self.ticker.as_str(), self.granularity, &latest, today, self.max_historical_duration) {
                    Err(_) => (UpdateState::Done, UpdateAction::Finish(Err(TaskError::Range))),
                    Ok(plan) => {
                        let watermark = match latest {
                            Some(c) => Some(c.timestamp),
                            None => None,
                        };
                        let managers = get_managers_in_priority();
                        (
                            UpdateState::AwaitFetch { plan, watermark, provider: 0 },
                            UpdateAction::Fetch { provider: managers[0] },
                        )
                    },
                }
            },
            (
                UpdateState::AwaitFetch { plan, watermark, provider },
                UpdateEvent::Fetched(Err(_)),
            ) => {
                let managers = get_managers_in_priority();
                if provider < managers.len() - 1 {
                    (
                        UpdateState::AwaitFetch { plan, watermark, provider: provider + 1 },
                        UpdateAction::Fetch { provider: managers[provider + 1] },
                    )
                } else {
                    (
                        UpdateState::Done,
                        UpdateAction::Finish(Err(TaskError::NoData { ticker: self.ticker.clone() })),
                    )
                }
            },
            (
                UpdateState::AwaitFetch { plan, watermark, provider },
                UpdateEvent::Fetched(Ok(fetched)),
            ) => {
                let records = fresh_observations(fetched, self.ticker.as_str(), watermark);
                if records.len() == 0 {
                    (UpdateState::Done, UpdateAction::Finish(Ok(())))
                } else {
                    (
                        UpdateState::AwaitInsert,
                        UpdateAction::InsertBatch {
                            collection: self.granularity.collection_name(),
                            records,
                        },
                    )
                }
            },
            (UpdateState::AwaitInsert, UpdateEvent::Inserted(Ok(_))) => (
                UpdateState::Done,
                UpdateAction::Finish(Ok(())),
            ),
            (UpdateState::AwaitInsert, UpdateEvent::Inserted(Err(e))) => (
                UpdateState::Done,
                UpdateAction::Finish(Err(TaskError::Store(e))),
            ),
            _ => (UpdateState::Done, UpdateAction::Finish(Err(TaskError::OutOfTurn))),
        }
    }
}

/// Fallback, as the task does it: a task that waits for the primary provider
/// and is handed, provider by provider, what each one returned, ends by asking
/// to insert what is kept of the first answer that is no failure, whatever the
/// providers after it would have returned; it ends with success and without
/// an insert where nothing of that answer is kept, and without data where
/// every provider failed.
pub proof fn law_task_falls_back(
    task: UpdateCandleDataTask,
    waiting: UpdateState,
    results: Seq<Result<Vec<CandleData>, FetchError>>,
    after_first: (UpdateState, UpdateAction),
    after_second: (UpdateState, UpdateAction),
)
    requires
        waiting is AwaitFetch,
        waiting->provider == 0,
        results.len() == priority_list().len(),
        task.allows(waiting, UpdateEvent::Fetched(results[0]), after_first.0, after_first.1),
        after_first.1 is Fetch ==> task.allows(
            after_first.0,
            UpdateEvent::Fetched(results[1]),
            after_second.0,
            after_second.1,
        ),
    ensures
        ({
            let last = if after_first.1 is Fetch {
                after_second.1
            } else {
                after_first.1
            };
            match first_success(results) {
                Some(k) => {
                    let kept = fresh(results[k]->Ok_0@, task.ticker@, waiting->watermark);
                    if kept.len() == 0 {
                        last == UpdateAction::Finish(Ok(()))
                    } else {
                        last is InsertBatch && last->records@ == kept
                    }
                },
                None => last is Finish && last->0 is Err && last->0->Err_0 is NoData,
            }
        }),
{
    lemma_first_success(results);
    assert(priority_list().len() == 2);
    if results[0] is Ok {
        assert(first_success(results) == Some(0int));
    } else if results[1] is Ok {
        assert(first_success(results) == Some(1int));
    } else {
        assert(first_success(results) is None);
    }
}

} // verus!
