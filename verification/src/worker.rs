//! One search: the question that goes to the search service, and what becomes
//! of the answer.

use crate::bus::{notified, CancellationBus, Subscription};
use crate::model::{GithubResult, GithubResultView, Repository};
use crate::store::views_of;
use vstd::prelude::*;

verus! {

/// What the search service answered: the repositories it found, in its order,
/// or the reason why it found none.
pub type Page = Result<Vec<Repository>, String>;

/// The results that the plugin keeps of what the service found.
pub open spec fn summaries(items: Seq<Repository>) -> Seq<GithubResultView> {
    items.map_values(|item: Repository| item@.summary())
}

/// A search that was started and has not been settled.
#[derive(Debug, PartialEq, Eq)]
pub struct SearchWorker {
    query: String,
    subscription: Subscription,
}

/// What a [`SearchWorker`] holds.
pub struct SearchWorkerView {
    /// The text that goes to the search service.
    pub query: Seq<char>,
    /// The count of the cancellation bus when the search was started.
    pub joined: nat,
}

impl View for SearchWorker {
    type V = SearchWorkerView;

    closed spec fn view(&self) -> SearchWorkerView {
        SearchWorkerView { query: self.query@, joined: self.subscription@ }
    }
}

/// What becomes of one search. Each search ends in exactly one of these.
#[derive(Debug, PartialEq, Eq)]
pub enum Settlement {
    /// The results are handed on, to be shown.
    Push(Vec<GithubResult>),
    /// The search failed for the given reason; nothing is shown.
    Report(String),
    /// The search was told to stop; nothing is shown and nothing is reported.
    Cancelled,
}

/// What a [`Settlement`] holds.
pub enum SettlementView {
    Push(Seq<GithubResultView>),
    Report(Seq<char>),
    Cancelled,
}

impl View for Settlement {
    type V = SettlementView;

    open spec fn view(&self) -> SettlementView {
        match *self {
            Settlement::Push(results) => SettlementView::Push(views_of(results@)),
            Settlement::Report(reason) => SettlementView::Report(reason@),
            Settlement::Cancelled => SettlementView::Cancelled,
        }
    }
}

/// What becomes of a search that was started at the count `joined`, when the
/// service's answer arrives while the bus has counted `signals`.
pub open spec fn settled(signals: nat, joined: nat, page: Page) -> SettlementView {
    if notified(signals, joined) {
        SettlementView::Cancelled
    } else {
        match page {
            Ok(items) => SettlementView::Push(summaries(items@)),
            Err(reason) => SettlementView::Report(reason@),
        }
    }
}

/// Turns the service's answer into the results that the plugin keeps, one for
/// each repository and in the same order. A failure is handed on as it is.
pub fn run_query(page: Page) -> (outcome: Result<Vec<GithubResult>, String>)
    ensures
        match page {
            Ok(items) => outcome matches Ok(results) && views_of(results@) == summaries(items@),
            Err(reason) => outcome matches Err(why) && why@ == reason@,
        },
{
    match page {
        Ok(items) => {
            let ghost all = items@;
            let mut results: Vec<GithubResult> = Vec::new();
            for item in iter: items.into_iter()
                invariant
                    iter.seq() == all,
                    results@.len() == iter.index(),
                    forall|j: int|
                        0 <= j < results@.len() ==> (#[trigger] results@[j])@ == all[j]@.summary(),
            {
                results.push(GithubResult::from(item));
            }
            assert(views_of(results@) =~= summaries(all));
            Ok(results)
        },
        Err(reason) => Err(reason),
    }
}

impl SearchWorker {
    /// A search for `query` that is reached by the signals that come after
    /// `subscription` was made.
    pub fn new(query: String, subscription: Subscription) -> (worker: Self)
        ensures
            worker@ == (SearchWorkerView { query: query@, joined: subscription@ }),
    {
        SearchWorker { query, subscription }
    }

    /// The text that goes to the search service.
    pub fn query(&self) -> (query: &str)
        ensures
            query@ == self@.query,
    {
        self.query.as_str()
    }

    /// Decides what becomes of the search now that the service has answered
    /// with `page`. A search that was told to stop in the meantime ends
    /// silently, whatever the answer was; otherwise the results are handed on,
    /// or the failure is reported.
    pub fn settle(self, bus: &CancellationBus, page: Page) -> (settlement: Settlement)
        ensures
            settlement@ == settled(bus@, self@.joined, page),
    {
        if bus.is_cancelled(&self.subscription) {
            Settlement::Cancelled
        } else {
            match run_query(page) {
                Ok(results) => Settlement::Push(results),
                Err(reason) => Settlement::Report(reason),
            }
        }
    }
}

} // verus!
