//! Registration of a ticker: every provider is asked for its metadata, the
//! fields are settled by vote, and the record replaces what was stored.

use crate::api_managers::{get_managers_in_priority, priority_list, Provider};
use crate::error::{FetchError, StoreError, TaskError};
use crate::resolver::{is_mode_at, mode, texts};
use crate::text::{lowercase, to_lowercase};
use vstd::prelude::*;

verus! {

/// The collection that holds one record for each registered ticker.
pub const TICKER_COLLECTION: &'static str = "tickers";

/// What one provider says of an instrument.
#[derive(Clone, Debug, PartialEq, Eq)]
pub struct ProviderMetadata {
    pub company_name: String,
    pub exchange: String,
}

/// The record of a registered ticker. All three texts are lower case.
#[derive(Clone, Debug, PartialEq, Eq)]
pub struct TickerMetadata {
    pub ticker: String,
    pub company_name: String,
    pub exchange: String,
}

/// The votes with one more: a vote counts in lower case, and an empty one
/// does not count.
pub open spec fn with_vote(votes: Seq<Seq<char>>, value: Seq<char>) -> Seq<Seq<char>> {
    if lowercase(value).len() > 0 {
        votes.push(lowercase(value))
    } else {
        votes
    }
}

/// The votes on the company name, in the order of the providers that
/// answered.
pub open spec fn company_votes(responses: Seq<Result<ProviderMetadata, FetchError>>) -> Seq<Seq<char>>
    decreases responses.len(),
{
    if responses.len() == 0 {
        Seq::empty()
    } else {
        let rest = company_votes(responses.drop_last());
        match responses.last() {
            Ok(m) => with_vote(rest, m.company_name@),
            Err(_) => rest,
        }
    }
}

/// The votes on the exchange, in the order of the providers that answered.
pub open spec fn exchange_votes(responses: Seq<Result<ProviderMetadata, FetchError>>) -> Seq<Seq<char>>
    decreases responses.len(),
{
    if responses.len() == 0 {
        Seq::empty()
    } else {
        let rest = exchange_votes(responses.drop_last());
        match responses.last() {
            Ok(m) => with_vote(rest, m.exchange@),
            Err(_) => rest,
        }
    }
}

/// How many providers answered.
pub open spec fn answers(responses: Seq<Result<ProviderMetadata, FetchError>>) -> nat
    decreases responses.len(),
{
    if responses.len() == 0 {
        0
    } else {
        answers(responses.drop_last()) + if responses.last() is Ok {
            1nat
        } else {
            0nat
        }
    }
}

/// Whether `winner` is what the votes settle on: their most common value, the
/// earlier one of two that are equally common, and the empty text where
/// there is no vote.
pub open spec fn is_winner(votes: Seq<Seq<char>>, winner: Seq<char>) -> bool {
    if votes.len() == 0 {
        winner.len() == 0
    } else {
        exists|k: int| is_mode_at(votes, k) && winner == #[trigger] votes[k]
    }
}

/// Whether `outcome` is what the votes settle on for `ticker`: no data where
/// no provider answered, and otherwise the record of the
/// ticker in lower case with the winner of each field.
pub open spec fn is_settled(
    ticker: Seq<char>,
    answered: bool,
    company: Seq<Seq<char>>,
    exchange: Seq<Seq<char>>,
    outcome: Result<TickerMetadata, TaskError>,
) -> bool {
    if !answered {
        outcome matches Err(TaskError::NoData { ticker: t }) && t@ == lowercase(ticker)
    } else {
        &&& outcome matches Ok(m)
        &&& m.ticker@ == lowercase(ticker)
        &&& is_winner(company, m.company_name@)
        &&& is_winner(exchange, m.exchange@)
    }
}

/// The value that a list of votes settles on.
pub fn winner(votes: &Vec<String>) -> (r: String)
    ensures
        is_winner(texts(votes@), r@),
{
    match mode(votes) {
        Some(w) => {
            proof {
                let k = choose|k: int| is_mode_at(texts(votes@), k) && *w == #[trigger] votes@[k];
                assert(texts(votes@)[k] == w@);
            }
            w.clone()
        },
        None => String::new(),
    }
}

/// Adds a vote to the list: in lower case, and only if it is not empty.
pub fn add_vote(votes: &mut Vec<String>, value: &str)
    ensures
        texts(final(votes)@) == with_vote(texts(old(votes)@), value@),
{
    let vote = to_lowercase(value);
    if !vote.as_str().is_empty() {
        proof {
            assert(texts(votes@.push(vote)) =~= texts(votes@).push(vote@));
        }
        votes.push(vote);
    }
}

/// Settles the metadata of `ticker` from what the providers returned, given in
/// the order of their priority. Every provider that answered has a vote on
/// each field; the votes count in lower case, and empty ones do not count.
/// Where every provider failed there is no data.
pub fn reconcile_metadata(ticker: &str, responses: Vec<Result<ProviderMetadata, FetchError>>) -> (r:
    Result<TickerMetadata, TaskError>)
    ensures
        is_settled(
            ticker@,
            answers(responses@) > 0,
            company_votes(responses@),
            exchange_votes(responses@),
            r,
        ),
{
    let mut company: Vec<String> = Vec::new();
    let mut exchange: Vec<String> = Vec::new();
    let mut answered = false;
    let ghost all = responses@;
    assert(texts(company@) =~= company_votes(all.take(0)));
    assert(texts(exchange@) =~= exchange_votes(all.take(0)));
    for response in it: responses
        invariant
            it.seq() == all,
            answered == (answers(all.take(it.index())) > 0),
            texts(company@) == company_votes(all.take(it.index())),
            texts(exchange@) == exchange_votes(all.take(it.index())),
    {
        proof {
            let i = it.index();
            assert(all.take(i + 1).drop_last() == all.take(i));
            assert(all.take(i + 1).last() == response);
        }
        match response {
            Ok(m) => {
                add_vote(&mut company, m.company_name.as_str());
                add_vote(&mut exchange, m.exchange.as_str());
                answered = true;
            },
            Err(_) => {},
        }
    }
    proof {
        assert(all.take(all.len() as int) == all);
    }
    settle(ticker, answered, &company, &exchange)
}

/// The record that the votes settle on, or no data where no provider
/// answered.
fn settle(ticker: &str, answered: bool, company: &Vec<String>, exchange: &Vec<String>) -> (r: Result<
    TickerMetadata,
    TaskError,
>)
    ensures
        is_settled(ticker@, answered, texts(company@), texts(exchange@), r),
{
    let name = to_lowercase(ticker);
    if !answered {
        Err(TaskError::NoData { ticker: name })
    } else {
        Ok(TickerMetadata { ticker: name, company_name: winner(company), exchange: winner(exchange) })
    }
}

/// No vote is empty.
pub proof fn lemma_votes_not_empty(responses: Seq<Result<ProviderMetadata, FetchError>>)
    ensures
        forall|i: int|
            0 <= i < company_votes(responses).len() ==> (#[trigger] company_votes(responses)[i]).len()
                > 0,
        forall|i: int|
            0 <= i < exchange_votes(responses).len() ==> (#[trigger] exchange_votes(responses)[i]).len()
                > 0,
    decreases responses.len(),
{
    if responses.len() > 0 {
        let front = responses.drop_last();
        lemma_votes_not_empty(front);
        let company = company_votes(responses);
        assert forall|i: int| 0 <= i < company.len() implies (#[trigger] company[i]).len() > 0 by {
            if i < company_votes(front).len() {
                assert(company[i] == company_votes(front)[i]);
            }
        }
        let exchange = exchange_votes(responses);
        assert forall|i: int| 0 <= i < exchange.len() implies (#[trigger] exchange[i]).len() > 0 by {
            if i < exchange_votes(front).len() {
                assert(exchange[i] == exchange_votes(front)[i]);
            }
        }
    }
}

/// A provider that answered with a value that is not empty in lower case has
/// its vote counted.
pub proof fn lemma_vote_counted(responses: Seq<Result<ProviderMetadata, FetchError>>, i: int)
    requires
        0 <= i < responses.len(),
        responses[i] is Ok,
    ensures
        lowercase(responses[i]->Ok_0.company_name@).len() > 0 ==> company_votes(responses).len() > 0,
        lowercase(responses[i]->Ok_0.exchange@).len() > 0 ==> exchange_votes(responses).len() > 0,
    decreases responses.len(),
{
    if i < responses.len() - 1 {
        lemma_vote_counted(responses.drop_last(), i);
    }
}

/// The winning value is never empty where a provider returned a value that
/// is not empty in lower case.
pub proof fn law_winner_not_empty(
    responses: Seq<Result<ProviderMetadata, FetchError>>,
    i: int,
    company: Seq<char>,
    exchange: Seq<char>,
)
    requires
        0 <= i < responses.len(),
        responses[i] is Ok,
        is_winner(company_votes(responses), company),
        is_winner(exchange_votes(responses), exchange),
    ensures
        lowercase(responses[i]->Ok_0.company_name@).len() > 0 ==> company.len() > 0,
        lowercase(responses[i]->Ok_0.exchange@).len() > 0 ==> exchange.len() > 0,
{
    lemma_vote_counted(responses, i);
    lemma_votes_not_empty(responses);
}

/// The task that registers a ticker.
#[derive(Debug)]
pub struct AddTickerTask {
    pub ticker: String,
}

/// Where a registration stands between two events.
#[derive(Debug)]
pub enum AddTickerState {
    /// Nothing has been asked for yet.
    Start,
    /// The provider at the position `provider` of the priority list has been
    /// asked; `answered` says whether a provider before it answered, and
    /// these are the votes so far.
    AwaitMetadata { provider: usize, answered: bool, company: Vec<String>, exchange: Vec<String> },
    /// The store has been asked to delete the records of the ticker; the new
    /// record waits.
    AwaitDelete { record: TickerMetadata },
    /// The store has been asked to insert the new record.
    AwaitInsert,
    /// The task has ended.
    Done,
}

/// What happened outside a registration.
#[derive(Debug)]
pub enum AddTickerEvent {
    /// The task is started.
    Begin,
    /// The provider that was asked has answered.
    Metadata(Result<ProviderMetadata, FetchError>),
    /// The store has answered the request to delete.
    Deleted(Result<(), StoreError>),
    /// The store has answered the request to insert.
    Inserted(Result<(), StoreError>),
}

/// What a registration asks for next.
#[derive(Debug)]
pub enum AddTickerAction {
    /// Ask the provider for the metadata of the ticker, as it was given.
    FetchMetadata { provider: Provider, ticker: String },
    /// Delete every record of the ticker, in lower case.
    DeleteWhere { collection: &'static str, ticker: String },
    /// Insert the record.
    InsertOne { collection: &'static str, record: TickerMetadata },
    /// End the task with this outcome.
    Finish(Result<(), TaskError>),
}

impl AddTickerTask {
    /// Makes the task that registers `ticker`.
    pub fn new(ticker: &str) -> (r: AddTickerTask)
        ensures
            r.ticker@ == ticker@,
    {
        AddTickerTask { ticker: ticker.to_owned() }
    }

    /// Whether the task, standing at `state` and handed `event`, goes on
    /// to `next` and asks for `action`.
    pub open spec fn allows(
        &self,
        state: AddTickerState,
        event: AddTickerEvent,
        next: AddTickerState,
        action: AddTickerAction,
    ) -> bool {
        match (state, event) {
            (AddTickerState::Start, AddTickerEvent::Begin) => {
                &&& next matches AddTickerState::AwaitMetadata { provider, answered, company, exchange }
                &&& provider == 0
                &&& !answered
                &&& company@.len() == 0
                &&& exchange@.len() == 0
                &&& action matches AddTickerAction::FetchMetadata { provider: asked, ticker }
                &&& asked == priority_list()[0]
                &&& ticker@ == self.ticker@
            },
            (
                AddTickerState::AwaitMetadata { provider, answered, company, exchange },
                AddTickerEvent::Metadata(response),
            ) => {
                let any = answered || response is Ok;
                let names = match response {
                    Ok(m) => with_vote(texts(company@), m.company_name@),
                    Err(_) => texts(company@),
                };
                let places = match response {
                    Ok(m) => with_vote(texts(exchange@), m.exchange@),
                    Err(_) => texts(exchange@),
                };
                if provider + 1 < priority_list().len() {
                    &&& next matches AddTickerState::AwaitMetadata {
                        provider: p,
                        answered: a,
                        company: c,
                        exchange: e,
                    }
                    &&& p == provider + 1
                    &&& a == any
                    &&& texts(c@) == names
                    &&& texts(e@) == places
                    &&& action matches AddTickerAction::FetchMetadata { provider: asked, ticker }
                    &&& asked == priority_list()[provider + 1]
                    &&& ticker@ == self.ticker@
                } else if !any {
                    &&& next is Done
                    &&& action matches AddTickerAction::Finish(Err(TaskError::NoData { ticker }))
                    &&& ticker@ == lowercase(self.ticker@)
                } else {
                    &&& next matches AddTickerState::AwaitDelete { record }
                    &&& record.ticker@ == lowercase(self.ticker@)
                    &&& is_winner(names, record.company_name@)
                    &&& is_winner(places, record.exchange@)
                    &&& action matches AddTickerAction::DeleteWhere { collection, ticker }
                    &&& collection@ == TICKER_COLLECTION@
                    &&& ticker@ == lowercase(self.ticker@)
                }
            },
            (AddTickerState::AwaitDelete { record }, AddTickerEvent::Deleted(Ok(_))) => {
                &&& next is AwaitInsert
                &&& action matches AddTickerAction::InsertOne { collection, record: inserted }
                &&& collection@ == TICKER_COLLECTION@
                &&& inserted == record
            },
            (AddTickerState::AwaitDelete { record }, AddTickerEvent::Deleted(Err(e))) => {
                &&& next is Done
                &&& action == AddTickerAction::Finish(Err(TaskError::Store(e)))
            },
            (AddTickerState::AwaitInsert, AddTickerEvent::Inserted(Ok(_))) => {
                &&& next is Done
                &&& action == AddTickerAction::Finish(Ok(()))
            },
            (AddTickerState::AwaitInsert, AddTickerEvent::Inserted(Err(e))) => {
                &&& next is Done
                &&& action == AddTickerAction::Finish(Err(TaskError::Store(e)))
            },
            _ => {
                &&& next is Done
                &&& action == AddTickerAction::Finish(Err(TaskError::OutOfTurn))
            },
        }
    }

    /// Takes the task one step on: from where it stands and what happened to
    /// where it stands next and what it asks for. Every provider of the
    /// priority list is asked, in order; one that fails has no vote. When the
    /// last one has answered, the task ends without data if none answered,
    /// and without having touched the store; otherwise the records of the
    /// ticker are deleted and the settled record is inserted. An error of the
    /// store ends the task with that error, and so does an event that the
    /// state does not wait for.
    pub fn step(&self, state: AddTickerState, event: AddTickerEvent) -> (r: (
        AddTickerState,
        AddTickerAction,
    ))
        ensures
            self.allows(state, event, r.0, r.1),
    {
        match (state, event) {
            (AddTickerState::Start, AddTickerEvent::Begin) => {
                let managers = get_managers_in_priority();
                (
                    AddTickerState::AwaitMetadata {
                        provider: 0,
                        answered: false,
                        company: Vec::new(),
                        exchange: Vec::new(),
                    },
                    AddTickerAction::FetchMetadata { provider: managers[0], ticker: self.ticker.clone() },
                )
            },
            (
                AddTickerState::AwaitMetadata { provider, answered, company, exchange },
                AddTickerEvent::Metadata(response),
            ) => {
                let mut company = company;
                let mut exchange = exchange;
                let mut answered = answered;
                match response {
                    Ok(m) => {
                        add_vote(&mut company, m.company_name.as_str());
                        add_vote(&mut exchange, m.exchange.as_str());
                        answered = true;
                    },
                    Err(_) => {},
                }
                let managers = get_managers_in_priority();
                if provider < managers.len() - 1 {
                    (
                        AddTickerState::AwaitMetadata { provider: provider + 1, answered, company, exchange },
                        AddTickerAction::FetchMetadata {
                            provider: managers[provider + 1],
                            ticker: self.ticker.clone(),
                        },
                    )
                } else {
                    match settle(self.ticker.as_str(), answered, &company, &exchange) {
                        Err(e) => (AddTickerState::Done, AddTickerAction::Finish(Err(e))),
                        Ok(record) => {
                            let ticker = record.ticker.clone();
                            (
                                AddTickerState::AwaitDelete { record },
                                AddTickerAction::DeleteWhere { collection: TICKER_COLLECTION, ticker },
                            )
                        },
                    }
                }
            },
            (AddTickerState::AwaitDelete { record }, AddTickerEvent::Deleted(Ok(_))) => (
                AddTickerState::AwaitInsert,
                AddTickerAction::InsertOne { collection: TICKER_COLLECTION, record },
            ),
            (AddTickerState::AwaitDelete { record }, AddTickerEvent::Deleted(Err(e))) => (
                AddTickerState::Done,
                AddTickerAction::Finish(Err(TaskError::Store(e))),
            ),
            (AddTickerState::AwaitInsert, AddTickerEvent::Inserted(Ok(_))) => (
                AddTickerState::Done,
                AddTickerAction::Finish(Ok(())),
            ),
            (AddTickerState::AwaitInsert, AddTickerEvent::Inserted(Err(e))) => (
                AddTickerState::Done,
                AddTickerAction::Finish(Err(TaskError::Store(e))),
            ),
            _ => (AddTickerState::Done, AddTickerAction::Finish(Err(TaskError::OutOfTurn))),
        }
    }
}

/// A registration for which no provider has answered asks nothing of the
/// store: when a provider fails, the next one is asked, and after the last one
/// the task ends without data.
pub proof fn law_no_answer_leaves_store_alone(
    task: AddTickerTask,
    state: AddTickerState,
    failure: FetchError,
    next: AddTickerState,
    action: AddTickerAction,
)
    requires
        state is AwaitMetadata,
        !state->answered,
        task.allows(state, AddTickerEvent::Metadata(Err(failure)), next, action),
    ensures
        action is FetchMetadata || action is Finish,
        action is FetchMetadata ==> next is AwaitMetadata && !next->answered,
        action is Finish ==> next is Done && action->0 is Err && action->0->Err_0 is NoData,
{
}

/// The task settles what the vote settles: a registration that is handed,
/// provider by provider, what each one returned, ends without data where
/// none answered, and otherwise goes on to replace the record of the ticker
/// by the one that the votes of all the answers settle on.
pub proof fn law_task_settles_votes(
    task: AddTickerTask,
    responses: Seq<Result<ProviderMetadata, FetchError>>,
    begun: (AddTickerState, AddTickerAction),
    after_first: (AddTickerState, AddTickerAction),
    after_second: (AddTickerState, AddTickerAction),
)
    requires
        responses.len() == priority_list().len(),
        task.allows(AddTickerState::Start, AddTickerEvent::Begin, begun.0, begun.1),
        task.allows(begun.0, AddTickerEvent::Metadata(responses[0]), after_first.0, after_first.1),
        task.allows(
            after_first.0,
            AddTickerEvent::Metadata(responses[1]),
            after_second.0,
            after_second.1,
        ),
    ensures
        answers(responses) == 0 ==> after_second.0 is Done && after_second.1 is Finish
            && after_second.1->0 is Err && after_second.1->0->Err_0 is NoData,
        answers(responses) > 0 ==> after_second.0 is AwaitDelete && is_settled(
            task.ticker@,
            true,
            company_votes(responses),
            exchange_votes(responses),
            Ok(after_second.0->record),
        ),
{
    assert(priority_list().len() == 2);
    let none = responses.take(0);
    let one = responses.take(1);
    assert(one.drop_last() == none);
    assert(one.last() == responses[0]);
    assert(responses.drop_last() == one);
    assert(responses.last() == responses[1]);
    assert(company_votes(none) =~= Seq::<Seq<char>>::empty());
    assert(exchange_votes(none) =~= Seq::<Seq<char>>::empty());
    assert(answers(none) == 0);
    assert(begun.0 is AwaitMetadata);
    assert(texts(begun.0->company@) =~= company_votes(none));
    assert(texts(begun.0->exchange@) =~= exchange_votes(none));
    assert(after_first.0 is AwaitMetadata);
    assert(texts(after_first.0->company@) == company_votes(one));
    assert(texts(after_first.0->exchange@) == exchange_votes(one));
    assert(after_first.0->answered == (answers(one) > 0));
}

} // verus!
