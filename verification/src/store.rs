//! A model of the stored collection of one granularity, and what the update
//! rule guarantees of it: updates never store a key twice, never lower a
//! watermark, and store nothing when nothing new has come.

use crate::candle::{
    fresh, has_timestamp, is_accepted, is_newer, CandleData, UpdateAction, UpdateCandleDataTask,
    UpdateEvent, UpdateState,
};
use vstd::prelude::*;

verus! {

/// No two stored observations have the same ticker and the same timestamp.
pub open spec fn no_duplicate_keys(stored: Seq<CandleData>) -> bool {
    forall|i: int, j: int|
        0 <= i < j < stored.len() ==> !((#[trigger] stored[i]).ticker@ == (#[trigger] stored[j]).ticker@
            && stored[i].timestamp == stored[j].timestamp)
}

/// The watermark of a ticker: the greatest timestamp among its stored
/// observations, if it has any.
pub open spec fn watermark_of(stored: Seq<CandleData>, ticker: Seq<char>) -> Option<i64>
    decreases stored.len(),
{
    if stored.len() == 0 {
        None
    } else {
        let rest = watermark_of(stored.drop_last(), ticker);
        let c = stored.last();
        if c.ticker@ == ticker {
            match rest {
                Some(w) => if c.timestamp > w {
                    Some(c.timestamp)
                } else {
                    Some(w)
                },
                None => Some(c.timestamp),
            }
        } else {
            rest
        }
    }
}

/// Whether the watermark `a` lies at or before the watermark `b`. No
/// watermark lies before every watermark.
pub open spec fn watermark_le(a: Option<i64>, b: Option<i64>) -> bool {
    match a {
        None => true,
        Some(x) => b matches Some(y) && x <= y,
    }
}

/// The collection after one update of `ticker` for which the providers
/// returned `fetched`: what was stored, then what the update keeps.
pub open spec fn after_update(stored: Seq<CandleData>, ticker: Seq<char>, fetched: Seq<CandleData>) -> Seq<
    CandleData,
> {
    stored + fresh(fetched, ticker, watermark_of(stored, ticker))
}

/// The collection after a run of updates, each one given by its ticker and by
/// what the providers returned for it.
pub open spec fn after_updates(
    stored: Seq<CandleData>,
    updates: Seq<(Seq<char>, Seq<CandleData>)>,
) -> Seq<CandleData>
    decreases updates.len(),
{
    if updates.len() == 0 {
        stored
    } else {
        let before = after_updates(stored, updates.drop_last());
        after_update(before, updates.last().0, updates.last().1)
    }
}

/// A ticker has no watermark exactly where none of its observations is
/// stored; otherwise the watermark is the timestamp of one of them, and none
/// of them has a greater one.
pub proof fn lemma_watermark(stored: Seq<CandleData>, ticker: Seq<char>)
    ensures
        (match watermark_of(stored, ticker) {
            None => forall|i: int| 0 <= i < stored.len() ==> (#[trigger] stored[i]).ticker@ != ticker,
            Some(w) => {
                &&& exists|i: int|
                    0 <= i < stored.len() && (#[trigger] stored[i]).ticker@ == ticker
                        && stored[i].timestamp == w
                &&& forall|i: int|
                    0 <= i < stored.len() && (#[trigger] stored[i]).ticker@ == ticker
                        ==> stored[i].timestamp <= w
            },
        }),
    decreases stored.len(),
{
    if stored.len() > 0 {
        let front = stored.drop_last();
        let c = stored.last();
        lemma_watermark(front, ticker);
        assert forall|i: int| 0 <= i < front.len() implies front[i] == stored[i] by {}
        match watermark_of(stored, ticker) {
            None => {
                assert forall|i: int| 0 <= i < stored.len() implies (#[trigger] stored[i]).ticker@
                    != ticker by {
                    if i < front.len() {
                        assert(front[i].ticker@ != ticker);
                    }
                }
            },
            Some(w) => {
                if c.ticker@ == ticker && c.timestamp == w {
                    assert(stored[stored.len() - 1].ticker@ == ticker);
                } else {
                    let k = choose|i: int|
                        0 <= i < front.len() && (#[trigger] front[i]).ticker@ == ticker
                            && front[i].timestamp == w;
                    assert(stored[k].ticker@ == ticker && stored[k].timestamp == w);
                }
                assert forall|i: int|
                    0 <= i < stored.len() && (#[trigger] stored[i]).ticker@ == ticker implies stored[i].timestamp
                    <= w by {
                    if i < front.len() {
                        assert(front[i].ticker@ == ticker);
                    }
                }
            },
        }
    }
}

/// Every observation that an update keeps was fetched, belongs to the ticker
/// and lies after the watermark.
pub proof fn lemma_fresh_members(fetched: Seq<CandleData>, ticker: Seq<char>, watermark: Option<i64>)
    ensures
        forall|i: int|
            0 <= i < fresh(fetched, ticker, watermark).len() ==> is_accepted(
                #[trigger] fresh(fetched, ticker, watermark)[i],
                ticker,
                watermark,
            ) && fetched.contains(fresh(fetched, ticker, watermark)[i]),
    decreases fetched.len(),
{
    if fetched.len() > 0 {
        let front = fetched.drop_last();
        lemma_fresh_members(front, ticker, watermark);
        let rest = fresh(front, ticker, watermark);
        let kept = fresh(fetched, ticker, watermark);
        assert forall|i: int| 0 <= i < kept.len() implies is_accepted(
            #[trigger] kept[i],
            ticker,
            watermark,
        ) && fetched.contains(kept[i]) by {
            if i < rest.len() {
                assert(kept[i] == rest[i]);
                let j = choose|j: int| 0 <= j < front.len() && front[j] == rest[i];
                assert(fetched[j] == kept[i]);
            } else {
                assert(kept[i] == fetched[fetched.len() - 1]);
            }
        }
    }
}

/// No two observations that an update keeps have the same timestamp.
pub proof fn lemma_fresh_distinct(fetched: Seq<CandleData>, ticker: Seq<char>, watermark: Option<i64>)
    ensures
        forall|i: int, j: int|
            0 <= i < j < fresh(fetched, ticker, watermark).len() ==> (#[trigger] fresh(
                fetched,
                ticker,
                watermark,
            )[i]).timestamp != (#[trigger] fresh(fetched, ticker, watermark)[j]).timestamp,
    decreases fetched.len(),
{
    if fetched.len() > 0 {
        let front = fetched.drop_last();
        lemma_fresh_distinct(front, ticker, watermark);
        let rest = fresh(front, ticker, watermark);
        let kept = fresh(fetched, ticker, watermark);
        assert forall|i: int, j: int| 0 <= i < j < kept.len() implies (#[trigger] kept[i]).timestamp != (
        #[trigger] kept[j]).timestamp by {
            if j < rest.len() {
                assert(kept[i] == rest[i] && kept[j] == rest[j]);
            } else {
                assert(kept[i] == rest[i]);
                assert(!has_timestamp(rest, kept[j].timestamp as int));
            }
        }
    }
}

/// Every timestamp that was fetched for the ticker after the watermark is
/// kept, and what is kept of it is the first observation that was fetched
/// with it.
pub proof fn law_fresh_keeps_first(
    fetched: Seq<CandleData>,
    ticker: Seq<char>,
    watermark: Option<i64>,
    j: int,
)
    requires
        0 <= j < fetched.len(),
        is_accepted(fetched[j], ticker, watermark),
        forall|i: int|
            0 <= i < j && is_accepted(#[trigger] fetched[i], ticker, watermark) ==> fetched[i].timestamp
                != fetched[j].timestamp,
    ensures
        fresh(fetched, ticker, watermark).contains(fetched[j]),
    decreases fetched.len(),
{
    let front = fetched.drop_last();
    let rest = fresh(front, ticker, watermark);
    let kept = fresh(fetched, ticker, watermark);
    if j < fetched.len() - 1 {
        law_fresh_keeps_first(front, ticker, watermark, j);
        let k = choose|k: int| 0 <= k < rest.len() && rest[k] == front[j];
        assert(kept[k] == fetched[j]);
    } else {
        lemma_fresh_members(front, ticker, watermark);
        if has_timestamp(rest, fetched[j].timestamp as int) {
            let k = choose|k: int|
                0 <= k < rest.len() && (#[trigger] rest[k]).timestamp == fetched[j].timestamp;
            let i = choose|i: int| 0 <= i < front.len() && front[i] == rest[k];
            assert(is_accepted(fetched[i], ticker, watermark));
        }
        assert(kept[kept.len() - 1] == fetched[j]);
    }
}

/// The timestamp of every observation that was fetched for the ticker after
/// the watermark is among those that the update keeps.
pub proof fn lemma_fresh_covers(
    fetched: Seq<CandleData>,
    ticker: Seq<char>,
    watermark: Option<i64>,
    j: int,
)
    requires
        0 <= j < fetched.len(),
        is_accepted(fetched[j], ticker, watermark),
    ensures
        has_timestamp(fresh(fetched, ticker, watermark), fetched[j].timestamp as int),
    decreases fetched.len(),
{
    let front = fetched.drop_last();
    let rest = fresh(front, ticker, watermark);
    let kept = fresh(fetched, ticker, watermark);
    if j < fetched.len() - 1 {
        lemma_fresh_covers(front, ticker, watermark, j);
        let k = choose|k: int|
            0 <= k < rest.len() && (#[trigger] rest[k]).timestamp == front[j].timestamp;
        assert(kept[k].timestamp == fetched[j].timestamp);
    } else if has_timestamp(rest, fetched[j].timestamp as int) {
        let k = choose|k: int|
            0 <= k < rest.len() && (#[trigger] rest[k]).timestamp == fetched[j].timestamp;
        assert(kept[k].timestamp == fetched[j].timestamp);
    } else {
        assert(kept[kept.len() - 1].timestamp == fetched[j].timestamp);
    }
}

/// Everything that was fetched is kept, as it came, where all of it belongs to
/// the ticker and lies after the watermark and no timestamp comes twice.
pub proof fn law_fresh_keeps_all(fetched: Seq<CandleData>, ticker: Seq<char>, watermark: Option<i64>)
    requires
        forall|i: int| 0 <= i < fetched.len() ==> is_accepted(#[trigger] fetched[i], ticker, watermark),
        forall|i: int, j: int|
            0 <= i < j < fetched.len() ==> (#[trigger] fetched[i]).timestamp != (
            #[trigger] fetched[j]).timestamp,
    ensures
        fresh(fetched, ticker, watermark) == fetched,
    decreases fetched.len(),
{
    if fetched.len() > 0 {
        let front = fetched.drop_last();
        assert forall|i: int| 0 <= i < front.len() implies is_accepted(
            #[trigger] front[i],
            ticker,
            watermark,
        ) by {
            assert(front[i] == fetched[i]);
        }
        assert forall|i: int, j: int| 0 <= i < j < front.len() implies (#[trigger] front[i]).timestamp != (
        #[trigger] front[j]).timestamp by {
            assert(front[i] == fetched[i] && front[j] == fetched[j]);
        }
        law_fresh_keeps_all(front, ticker, watermark);
        let c = fetched.last();
        assert(is_accepted(fetched[fetched.len() - 1], ticker, watermark));
        if has_timestamp(front, c.timestamp as int) {
            let j = choose|j: int| 0 <= j < front.len() && #[trigger] front[j].timestamp == c.timestamp;
            assert(fetched[j].timestamp != fetched[fetched.len() - 1].timestamp);
        }
        assert(front.push(c) == fetched);
    } else {
        assert(fetched =~= Seq::empty());
    }
}

/// An update keeps nothing where nothing that was fetched belongs to the
/// ticker and lies after the watermark.
pub proof fn lemma_fresh_nothing(fetched: Seq<CandleData>, ticker: Seq<char>, watermark: Option<i64>)
    requires
        forall|j: int| 0 <= j < fetched.len() ==> !is_accepted(#[trigger] fetched[j], ticker, watermark),
    ensures
        fresh(fetched, ticker, watermark).len() == 0,
    decreases fetched.len(),
{
    if fetched.len() > 0 {
        let front = fetched.drop_last();
        assert forall|j: int| 0 <= j < front.len() implies !is_accepted(
            #[trigger] front[j],
            ticker,
            watermark,
        ) by {
            assert(front[j] == fetched[j]);
        }
        lemma_fresh_nothing(front, ticker, watermark);
        assert(!is_accepted(fetched[fetched.len() - 1], ticker, watermark));
    }
}

/// Storing more never lowers the watermark of any ticker.
pub proof fn lemma_watermark_grows(stored: Seq<CandleData>, more: Seq<CandleData>, ticker: Seq<char>)
    ensures
        watermark_le(watermark_of(stored, ticker), watermark_of(stored + more, ticker)),
{
    let all = stored + more;
    lemma_watermark(stored, ticker);
    lemma_watermark(all, ticker);
    if let Some(w) = watermark_of(stored, ticker) {
        let k = choose|i: int|
            0 <= i < stored.len() && (#[trigger] stored[i]).ticker@ == ticker && stored[i].timestamp
                == w;
        assert(all[k].ticker@ == ticker && all[k].timestamp == w);
    }
}

/// No duplicate keys: a collection in which no key occurs twice has none that
/// occurs twice after an update, whatever the providers returned.
pub proof fn law_update_keeps_keys_unique(
    stored: Seq<CandleData>,
    ticker: Seq<char>,
    fetched: Seq<CandleData>,
)
    requires
        no_duplicate_keys(stored),
    ensures
        no_duplicate_keys(after_update(stored, ticker, fetched)),
{
    let watermark = watermark_of(stored, ticker);
    let kept = fresh(fetched, ticker, watermark);
    let all = after_update(stored, ticker, fetched);
    lemma_watermark(stored, ticker);
    lemma_fresh_members(fetched, ticker, watermark);
    lemma_fresh_distinct(fetched, ticker, watermark);
    assert forall|i: int, j: int| 0 <= i < j < all.len() implies !((#[trigger] all[i]).ticker@ == (
    #[trigger] all[j]).ticker@ && all[i].timestamp == all[j].timestamp) by {
        if j < stored.len() {
            assert(all[i] == stored[i] && all[j] == stored[j]);
        } else if i < stored.len() {
            assert(all[i] == stored[i]);
            assert(all[j] == kept[j - stored.len()]);
            assert(is_accepted(kept[j - stored.len()], ticker, watermark));
        } else {
            assert(all[i] == kept[i - stored.len()]);
            assert(all[j] == kept[j - stored.len()]);
        }
    }
}

/// No duplicate keys, after any run of updates: a collection that starts
/// without a key that occurs twice never comes to hold one.
pub proof fn law_updates_keep_keys_unique(
    stored: Seq<CandleData>,
    updates: Seq<(Seq<char>, Seq<CandleData>)>,
)
    requires
        no_duplicate_keys(stored),
    ensures
        no_duplicate_keys(after_updates(stored, updates)),
    decreases updates.len(),
{
    if updates.len() > 0 {
        law_updates_keep_keys_unique(stored, updates.drop_last());
        law_update_keeps_keys_unique(
            after_updates(stored, updates.drop_last()),
            updates.last().0,
            updates.last().1,
        );
    }
}

/// Watermark monotonicity: an update, of whatever ticker, leaves the
/// watermark of every ticker where it was or moves it forward.
pub proof fn law_watermark_monotonic(
    stored: Seq<CandleData>,
    updated: Seq<char>,
    fetched: Seq<CandleData>,
    ticker: Seq<char>,
)
    ensures
        watermark_le(
            watermark_of(stored, ticker),
            watermark_of(after_update(stored, updated, fetched), ticker),
        ),
{
    lemma_watermark_grows(stored, fresh(fetched, updated, watermark_of(stored, updated)), ticker);
}

/// Watermark monotonicity, over any run of updates.
pub proof fn law_watermark_monotonic_run(
    stored: Seq<CandleData>,
    updates: Seq<(Seq<char>, Seq<CandleData>)>,
    ticker: Seq<char>,
)
    ensures
        watermark_le(watermark_of(stored, ticker), watermark_of(after_updates(stored, updates), ticker)),
    decreases updates.len(),
{
    if updates.len() > 0 {
        let before = after_updates(stored, updates.drop_last());
        law_watermark_monotonic_run(stored, updates.drop_last(), ticker);
        law_watermark_monotonic(before, updates.last().0, updates.last().1, ticker);
    }
}

/// Idempotence: where there is no new data between two updates of a ticker,
/// the second update stores nothing. No new data means that whatever the
/// providers return at the second update they had returned at the first, or
/// it was no news then: not of the ticker, or not after its watermark.
pub proof fn law_update_idempotent(
    stored: Seq<CandleData>,
    ticker: Seq<char>,
    first: Seq<CandleData>,
    second: Seq<CandleData>,
)
    requires
        forall|i: int|
            0 <= i < second.len() ==> first.contains(#[trigger] second[i]) || !is_accepted(
                second[i],
                ticker,
                watermark_of(stored, ticker),
            ),
    ensures
        fresh(second, ticker, watermark_of(after_update(stored, ticker, first), ticker)).len() == 0,
        after_update(after_update(stored, ticker, first), ticker, second) == after_update(
            stored,
            ticker,
            first,
        ),
{
    let w0 = watermark_of(stored, ticker);
    let kept = fresh(first, ticker, w0);
    let stored1 = after_update(stored, ticker, first);
    let w1 = watermark_of(stored1, ticker);
    lemma_watermark_grows(stored, kept, ticker);
    lemma_watermark(stored1, ticker);
    lemma_fresh_members(first, ticker, w0);
    assert forall|i: int| 0 <= i < second.len() implies !is_accepted(#[trigger] second[i], ticker, w1) by {
        let c = second[i];
        if c.ticker@ == ticker {
            if is_newer(c.timestamp as int, w0) {
                assert(first.contains(c));
                let j = choose|j: int| 0 <= j < first.len() && first[j] == c;
                lemma_fresh_covers(first, ticker, w0, j);
                let k = choose|k: int|
                    0 <= k < kept.len() && (#[trigger] kept[k]).timestamp == c.timestamp;
                assert(is_accepted(kept[k], ticker, w0));
                assert(stored1[stored.len() + k] == kept[k]);
                assert(stored1[stored.len() + k].ticker@ == ticker);
            }
        }
    }
    lemma_fresh_nothing(second, ticker, w1);
    assert(stored1 + fresh(second, ticker, w1) =~= stored1);
}

/// What an update task asks to insert, added to the collection, is the
/// collection after the update, provided that the watermark of the task is
/// that of the collection: the store has answered truthfully. A task that
/// ends with success and without an insert leaves a collection that the update
/// would not change.
pub proof fn law_step_stores_update(
    task: UpdateCandleDataTask,
    stored: Seq<CandleData>,
    state: UpdateState,
    fetched: Vec<CandleData>,
    next: UpdateState,
    action: UpdateAction,
)
    requires
        state is AwaitFetch,
        state->watermark == watermark_of(stored, task.ticker@),
        task.allows(state, UpdateEvent::Fetched(Ok(fetched)), next, action),
    ensures
        action is InsertBatch || action == UpdateAction::Finish(Ok(())),
        action is InsertBatch ==> stored + action->records@ == after_update(
            stored,
            task.ticker@,
            fetched@,
        ),
        action is Finish ==> stored == after_update(stored, task.ticker@, fetched@),
{
    let kept = fresh(fetched@, task.ticker@, watermark_of(stored, task.ticker@));
    if kept.len() == 0 {
        assert(stored + kept =~= stored);
    }
}

} // verus!
