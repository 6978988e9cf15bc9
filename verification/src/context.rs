//! The coordinator: what the plugin knows between two events, and what it
//! does about each of them.

use crate::bus::{signalled, CancellationBus};
use crate::launcher::{PluginResponse, PluginResponseView, Request, RequestView};
use crate::model::{GithubResult, GithubResultView};
use crate::query::{parsed, Query};
use crate::store::{views_of, ResultStore};
use crate::worker::{settled, Page, SearchWorker, SearchWorkerView, Settlement};
use vstd::prelude::*;

verus! {

/// Something that the coordinator asks its surroundings to do. The actions
/// that answer one event are carried out in the order in which they are
/// given.
#[derive(Debug, PartialEq, Eq)]
pub enum Action {
    /// Hand this address to the desktop's default handler.
    Open(String),
    /// Write this response to the host.
    Respond(PluginResponse),
    /// Put the worker's query to the search service, and settle the worker
    /// with the answer.
    Spawn(SearchWorker),
    /// Abandon every search that is under way.
    Cancel,
    /// Stop reading requests.
    Stop,
}

/// What an [`Action`] holds.
pub enum ActionView {
    Open(Seq<char>),
    Respond(PluginResponseView),
    Spawn(SearchWorkerView),
    Cancel,
    Stop,
}

impl View for Action {
    type V = ActionView;

    open spec fn view(&self) -> ActionView {
        match *self {
            Action::Open(uri) => ActionView::Open(uri@),
            Action::Respond(response) => ActionView::Respond(response@),
            Action::Spawn(worker) => ActionView::Spawn(worker@),
            Action::Cancel => ActionView::Cancel,
            Action::Stop => ActionView::Stop,
        }
    }
}

/// What each of `actions` holds, in the same order.
pub open spec fn action_views(actions: Seq<Action>) -> Seq<ActionView> {
    actions.map_values(|action: Action| action@)
}

/// What each of `responses` holds, in the same order.
pub open spec fn response_views(responses: Seq<PluginResponse>) -> Seq<PluginResponseView> {
    responses.map_values(|response: PluginResponse| response@)
}

/// The responses that tell the host of `results`: one entry for each result,
/// numbered by its position and in the order of the list, and then the word
/// that the list is complete.
pub open spec fn announced(results: Seq<GithubResultView>) -> Seq<PluginResponseView> {
    Seq::new(
        results.len(),
        |i: int| PluginResponseView::Append(results[i].entry(i)),
    ).push(PluginResponseView::Finished)
}

/// What the coordinator knows between two events.
pub struct SearchContextView {
    /// The results that the host was last told of.
    pub results: Seq<GithubResultView>,
    /// The number of signals published on the cancellation bus.
    pub signals: nat,
}

impl SearchContextView {
    /// The answer to the activation of entry `id`: where the store holds that
    /// entry, its address is opened and the host is asked to close; where it
    /// does not, nothing happens.
    pub open spec fn activated(self, id: u32) -> Seq<ActionView> {
        if id < self.results.len() {
            seq![
                ActionView::Open(self.results[id as int].uri),
                ActionView::Respond(PluginResponseView::Close),
            ]
        } else {
            seq![]
        }
    }

    /// The state after an interrupt: the bus has counted one more signal and
    /// the store is empty.
    pub open spec fn interrupted(self) -> SearchContextView {
        SearchContextView { results: Seq::empty(), signals: signalled(self.signals) }
    }

    /// The answer to the typed text `text`: one worker for what the text asks
    /// the search service, subscribed to the bus as it is now; nothing where
    /// the text asks the service nothing, or where the bus hands out no
    /// subscription.
    pub open spec fn searched(self, text: Seq<char>) -> Seq<ActionView> {
        match parsed(text).remote_query() {
            Some(query) if self.signals < u64::MAX => seq![
                ActionView::Spawn(SearchWorkerView { query, joined: self.signals }),
            ],
            _ => seq![],
        }
    }

    /// The state after `request`. Only an interrupt changes it.
    pub open spec fn after_request(self, request: RequestView) -> SearchContextView {
        match request {
            RequestView::Interrupt => self.interrupted(),
            _ => self,
        }
    }

    /// The answer to `request`.
    pub open spec fn request_actions(self, request: RequestView) -> Seq<ActionView> {
        match request {
            RequestView::Activate(id) => self.activated(id),
            RequestView::Interrupt => seq![
                ActionView::Cancel,
                ActionView::Respond(PluginResponseView::Finished),
            ],
            RequestView::Search(text) => self.searched(text),
            RequestView::Exit => seq![ActionView::Stop],
            RequestView::Other => seq![],
        }
    }

    /// The state after the results of a completed search were installed.
    pub open spec fn installed(self, results: Seq<GithubResultView>) -> SearchContextView {
        SearchContextView { results, signals: self.signals }
    }

    /// The state after the requests of `requests` were served in their order,
    /// up to the first request to exit.
    pub open spec fn session_state(self, requests: Seq<RequestView>) -> SearchContextView
        decreases requests.len(),
    {
        if requests.len() == 0 || requests[0] == RequestView::Exit {
            self
        } else {
            self.after_request(requests[0]).session_state(requests.drop_first())
        }
    }

    /// The answers to the requests of `requests`, served in their order up to
    /// the first request to exit, one after the other.
    pub open spec fn session_actions(self, requests: Seq<RequestView>) -> Seq<ActionView>
        decreases requests.len(),
    {
        if requests.len() == 0 {
            seq![]
        } else if requests[0] == RequestView::Exit {
            self.request_actions(requests[0])
        } else {
            self.request_actions(requests[0]) + self.after_request(requests[0]).session_actions(
                requests.drop_first(),
            )
        }
    }
}

/// What each of `requests` holds, in the same order.
pub open spec fn request_views(requests: Seq<Request>) -> Seq<RequestView> {
    requests.map_values(|request: Request| request@)
}

/// The coordinator. It owns the results of the last search and the
/// cancellation bus.
pub struct SearchContext {
    store: ResultStore,
    bus: CancellationBus,
}

impl View for SearchContext {
    type V = SearchContextView;

    closed spec fn view(&self) -> SearchContextView {
        SearchContextView { results: self.store@, signals: self.bus@ }
    }
}

impl SearchContext {
    /// A coordinator that has seen nothing yet.
    pub fn new() -> (context: Self)
        ensures
            context@ == (SearchContextView { results: Seq::empty(), signals: 0 }),
    {
        SearchContext { store: ResultStore::new(), bus: CancellationBus::new() }
    }

    /// A copy of the result at position `index` in the store, if there is
    /// one.
    pub fn result(&self, index: usize) -> (found: Option<GithubResult>)
        ensures
            found is Some <==> index < self@.results.len(),
            found matches Some(result) ==> result@ == self@.results[index as int],
    {
        self.store.get(index)
    }

    /// Answers the activation of entry `id`.
    pub fn activate(&mut self, id: u32) -> (actions: Vec<Action>)
        ensures
            final(self)@ == old(self)@,
            action_views(actions@) == old(self)@.activated(id),
    {
        let mut actions: Vec<Action> = Vec::new();
        match self.store.get(id as usize) {
            Some(selected) => {
                actions.push(Action::Open(selected.uri));
                actions.push(Action::Respond(PluginResponse::Close));
            },
            None => {},
        }
        assert(action_views(actions@) =~= self@.activated(id));
        actions
    }

    /// Answers an interrupt: every search under way is abandoned, the store is
    /// emptied, and the host is told that the plugin is done.
    pub fn interrupt(&mut self) -> (actions: Vec<Action>)
        ensures
            final(self)@ == old(self)@.interrupted(),
            action_views(actions@) == old(self)@.request_actions(RequestView::Interrupt),
    {
        self.bus.signal();
        self.store.clear();
        let mut actions: Vec<Action> = Vec::new();
        actions.push(Action::Cancel);
        actions.push(Action::Respond(PluginResponse::Finished));
        assert(action_views(actions@) =~= old(self)@.request_actions(RequestView::Interrupt));
        actions
    }

    /// Answers typed text. The search itself is left to the worker that is
    /// handed out, so that the next request can be served at once.
    pub fn search(&self, query: String) -> (actions: Vec<Action>)
        ensures
            action_views(actions@) == self@.searched(query@),
    {
        let mut actions: Vec<Action> = Vec::new();
        match Query::parse(query.as_str()).remote_query() {
            Some(remote) => {
                match self.bus.subscribe() {
                    Some(subscription) => {
                        actions.push(Action::Spawn(SearchWorker::new(remote, subscription)));
                    },
                    None => {},
                }
            },
            None => {},
        }
        assert(action_views(actions@) =~= self@.searched(query@));
        actions
    }

    /// Answers one request of the host.
    pub fn handle_request(&mut self, request: Request) -> (actions: Vec<Action>)
        ensures
            final(self)@ == old(self)@.after_request(request@),
            action_views(actions@) == old(self)@.request_actions(request@),
    {
        match request {
            Request::Activate(id) => self.activate(id),
            Request::Interrupt => self.interrupt(),
            Request::Search(text) => self.search(text),
            Request::Exit => {
                let mut actions: Vec<Action> = Vec::new();
                actions.push(Action::Stop);
                assert(action_views(actions@) =~= self@.request_actions(request@));
                actions
            },
            Request::Other => {
                let actions: Vec<Action> = Vec::new();
                assert(action_views(actions@) =~= self@.request_actions(request@));
                actions
            },
        }
    }

    /// Decides what becomes of the search that `worker` stands for, now that
    /// the search service has answered with `page`.
    pub fn settle(&self, worker: SearchWorker, page: Page) -> (settlement: Settlement)
        ensures
            settlement@ == settled(self@.signals, worker@.joined, page),
    {
        worker.settle(&self.bus, page)
    }
}

/// Installs the results of a completed search in the place of whatever the
/// store held, and gives the responses that tell the host of them.
pub fn dispatch_search_result(app: &mut SearchContext, new_results: Vec<GithubResult>) -> (responses:
    Vec<PluginResponse>)
    ensures
        final(app)@ == old(app)@.installed(views_of(new_results@)),
        response_views(responses@) == announced(views_of(new_results@)),
{
    let mut responses: Vec<PluginResponse> = Vec::new();
    let n: usize = new_results.len();
    let mut idx: usize = 0;
    while idx < n
        invariant
            idx <= n,
            n == new_results@.len(),
            responses@.len() == idx,
            forall|j: int|
                0 <= j < idx ==> (#[trigger] responses@[j])@ == PluginResponseView::Append(
                    new_results@[j]@.entry(j),
                ),
        decreases n - idx,
    {
        responses.push(new_results[idx].to_plugin_response(idx));
        idx += 1;
    }
    responses.push(PluginResponse::Finished);
    assert(response_views(responses@) =~= announced(views_of(new_results@)));
    app.store.replace(new_results);
    responses
}

/// Serves the requests of `requests` in their order, up to the first request
/// to exit, and gives the answers one after the other.
pub fn listen_for_request(app: &mut SearchContext, requests: Vec<Request>) -> (actions: Vec<Action>)
    ensures
        final(app)@ == old(app)@.session_state(request_views(requests@)),
        action_views(actions@) == old(app)@.session_actions(request_views(requests@)),
{
    let ghost raw = requests@;
    let ghost all = request_views(requests@);
    let ghost start = app@;
    let mut actions: Vec<Action> = Vec::new();
    let mut running = true;
    proof {
        assert(all.skip(0) =~= all);
        assert(action_views(actions@) + start.session_actions(all) =~= start.session_actions(all));
    }
    for request in iter: requests.into_iter()
        invariant
            iter.seq() == raw,
            all == request_views(raw),
            running ==> start.session_state(all) == app@.session_state(all.skip(iter.index())),
            running ==> start.session_actions(all) == action_views(actions@)
                + app@.session_actions(all.skip(iter.index())),
            !running ==> start.session_state(all) == app@,
            !running ==> start.session_actions(all) == action_views(actions@),
    {
        if running {
            let ghost done = action_views(actions@);
            let ghost rest = all.skip(iter.index());
            let ghost asked = request@;
            let exits = match request {
                Request::Exit => true,
                _ => false,
            };
            let mut answer = app.handle_request(request);
            proof {
                assert(rest[0] == asked);
                assert(rest.drop_first() =~= all.skip(iter.index() + 1));
                assert(action_views(actions@ + answer@) =~= done + action_views(answer@));
            }
            actions.append(&mut answer);
            if exits {
                running = false;
            } else {
                proof {
                    assert(start.session_actions(all) =~= action_views(actions@)
                        + app@.session_actions(all.skip(iter.index() + 1)));
                }
            }
        }
    }
    proof {
        if running {
            assert(all.skip(raw.len() as int).len() == 0);
            assert(start.session_actions(all) =~= action_views(actions@));
        }
    }
    actions
}

} // verus!
