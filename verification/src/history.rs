//! What holds of the coordinator over any course of events.
//!
//! A course of events is a sequence of steps: requests of the host, and
//! completed searches whose results reach the dispatcher. Searches complete in
//! no particular order, so the theorems here speak of every such sequence.

use crate::bus::{issued, notified};
use crate::context::{announced, ActionView, SearchContextView};
use crate::launcher::{PluginResponseView, RequestView};
use crate::model::GithubResultView;
use crate::worker::{settled, Page, SettlementView};
use vstd::prelude::*;

verus! {

/// One thing that happens to the coordinator.
pub enum Step {
    /// The host sent this request.
    Request(RequestView),
    /// A search completed, and these results reached the dispatcher.
    Completed(Seq<GithubResultView>),
}

impl Step {
    /// Whether the step is the host's interrupt.
    pub open spec fn is_interrupt(self) -> bool {
        self == Step::Request(RequestView::Interrupt)
    }
}

/// The results that the store holds after `steps` if it held `before` when
/// they began: those of the last search that completed, unless an interrupt
/// came after it, and `before` if neither happened.
pub open spec fn latest_generation(before: Seq<GithubResultView>, steps: Seq<Step>) -> Seq<
    GithubResultView,
>
    decreases steps.len(),
{
    if steps.len() == 0 {
        before
    } else {
        match steps.last() {
            Step::Completed(results) => results,
            Step::Request(RequestView::Interrupt) => Seq::empty(),
            Step::Request(_) => latest_generation(before, steps.drop_last()),
        }
    }
}

/// The results of the last search that completed in `steps`, if any did.
pub open spec fn last_completed(steps: Seq<Step>) -> Option<Seq<GithubResultView>>
    decreases steps.len(),
{
    if steps.len() == 0 {
        None
    } else {
        match steps.last() {
            Step::Completed(results) => Some(results),
            Step::Request(_) => last_completed(steps.drop_last()),
        }
    }
}

impl SearchContextView {
    /// The state after one step.
    pub open spec fn after(self, step: Step) -> SearchContextView {
        match step {
            Step::Request(request) => self.after_request(request),
            Step::Completed(results) => self.installed(results),
        }
    }

    /// The state after `steps`, taken in their order.
    pub open spec fn run(self, steps: Seq<Step>) -> SearchContextView
        decreases steps.len(),
    {
        if steps.len() == 0 {
            self
        } else {
            self.run(steps.drop_last()).after(steps.last())
        }
    }
}

/// The host is told of a completed search by one entry for each result, in the
/// order of the results and numbered by position, and then by exactly one
/// word that the list is complete: nothing follows that word, and it does not
/// come earlier.
pub proof fn lemma_one_finish_after_the_entries(results: Seq<GithubResultView>)
    ensures
        announced(results).len() == results.len() + 1,
        forall|i: int|
            0 <= i < results.len() ==> #[trigger] announced(results)[i]
                == PluginResponseView::Append(results[i].entry(i)),
        forall|i: int|
            0 <= i < announced(results).len() ==> (#[trigger] announced(results)[i]
                == PluginResponseView::Finished <==> i == results.len()),
{
}

/// At every moment the store holds the results of exactly one search, whole
/// and in their order, or nothing: the results of two searches are never
/// mixed.
pub proof fn lemma_store_holds_latest_generation(start: SearchContextView, steps: Seq<Step>)
    ensures
        start.run(steps).results == latest_generation(start.results, steps),
    decreases steps.len(),
{
    if steps.len() > 0 {
        lemma_store_holds_latest_generation(start, steps.drop_last());
    }
}

/// As long as the host sends no interrupt, the store ends up with the results
/// of the search that completed last, whichever search was asked for last;
/// and it is left as it was if none completed.
pub proof fn lemma_last_completion_wins(start: SearchContextView, steps: Seq<Step>)
    requires
        forall|i: int| 0 <= i < steps.len() ==> !(#[trigger] steps[i]).is_interrupt(),
    ensures
        start.run(steps).results == match last_completed(steps) {
            Some(results) => results,
            None => start.results,
        },
        start.run(steps).signals == start.signals,
    decreases steps.len(),
{
    if steps.len() > 0 {
        let earlier = steps.drop_last();
        assert forall|i: int| 0 <= i < earlier.len() implies !(#[trigger] earlier[i]).is_interrupt() by {
            assert(earlier[i] == steps[i]);
        }
        lemma_last_completion_wins(start, earlier);
        assert(!steps[steps.len() - 1].is_interrupt());
    }
}

/// The bus never counts backwards, and it never forgets a subscription that
/// it has handed out.
pub proof fn lemma_signals_only_grow(start: SearchContextView, steps: Seq<Step>)
    ensures
        start.signals <= start.run(steps).signals,
        forall|joined: nat|
            notified(start.signals, joined) ==> notified(start.run(steps).signals, joined),
        forall|joined: nat| issued(start.signals, joined) ==> issued(start.run(steps).signals, joined),
    decreases steps.len(),
{
    if steps.len() > 0 {
        lemma_signals_only_grow(start, steps.drop_last());
    }
}

/// An interrupt empties the store, and silences every search that was under
/// way when it came: whatever happens later and whatever the search service
/// answers, such a search ends without handing on results and without a
/// report.
pub proof fn lemma_interrupt_silences_outstanding(
    before: SearchContextView,
    joined: nat,
    later: Seq<Step>,
    page: Page,
)
    requires
        issued(before.signals, joined),
    ensures
        before.after(Step::Request(RequestView::Interrupt)).results.len() == 0,
        settled(
            before.after(Step::Request(RequestView::Interrupt)).run(later).signals,
            joined,
            page,
        ) == SettlementView::Cancelled,
{
    lemma_signals_only_grow(before.interrupted(), later);
    assert(notified(before.interrupted().signals, joined));
}

/// A search that was started after the last interrupt is not silenced: its
/// results are handed on, or its failure is reported.
pub proof fn lemma_search_without_interrupt_is_heard(
    start: SearchContextView,
    steps: Seq<Step>,
    page: Page,
)
    requires
        forall|i: int| 0 <= i < steps.len() ==> !(#[trigger] steps[i]).is_interrupt(),
    ensures
        settled(start.run(steps).signals, start.signals, page) != SettlementView::Cancelled,
{
    lemma_last_completion_wins(start, steps);
}

/// An interrupt is answered by abandoning the searches and by the one word
/// that the plugin is done; after it, and until a search completes, no
/// activation has any effect.
pub proof fn lemma_activation_after_interrupt_is_silent(
    before: SearchContextView,
    later: Seq<Step>,
    id: u32,
)
    requires
        forall|i: int| 0 <= i < later.len() ==> !(#[trigger] later[i] is Completed),
    ensures
        before.request_actions(RequestView::Interrupt) == seq![
            ActionView::Cancel,
            ActionView::Respond(PluginResponseView::Finished),
        ],
        before.after(Step::Request(RequestView::Interrupt)).run(later).activated(id)
            == Seq::<ActionView>::empty(),
{
    let cleared = before.after(Step::Request(RequestView::Interrupt));
    lemma_no_completion_keeps_store_empty(cleared, later);
}

/// A store that is empty stays empty as long as no search completes.
pub proof fn lemma_no_completion_keeps_store_empty(start: SearchContextView, steps: Seq<Step>)
    requires
        start.results.len() == 0,
        forall|i: int| 0 <= i < steps.len() ==> !(#[trigger] steps[i] is Completed),
    ensures
        start.run(steps).results.len() == 0,
    decreases steps.len(),
{
    if steps.len() > 0 {
        let earlier = steps.drop_last();
        assert forall|i: int| 0 <= i < earlier.len() implies !(#[trigger] earlier[i] is Completed) by {
            assert(earlier[i] == steps[i]);
        }
        lemma_no_completion_keeps_store_empty(start, earlier);
        assert(!(steps[steps.len() - 1] is Completed));
    }
}

} // verus!
