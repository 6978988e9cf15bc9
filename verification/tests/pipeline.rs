use github_launcher::context::{dispatch_search_result, listen_for_request, Action, SearchContext};
use github_launcher::launcher::{PluginResponse, PluginSearchResult, Request};
use github_launcher::model::{GithubResult, Repository};
use github_launcher::worker::{run_query, SearchWorker, Settlement};

fn repository(full_name: &str) -> Repository {
    let short = full_name.rsplit('/').next().unwrap_or(full_name);
    Repository {
        name: short.to_string(),
        full_name: Some(full_name.to_string()),
        description: Some(format!("about {}", short)),
        html_url: Some(format!("https://github.com/{}", full_name)),
    }
}

fn result(full_name: &str) -> GithubResult {
    GithubResult::from(repository(full_name))
}

fn append(id: u32, name: &str, description: &str) -> PluginResponse {
    PluginResponse::Append(PluginSearchResult {
        id,
        name: name.to_string(),
        description: description.to_string(),
        keywords: None,
        icon: None,
        command: None,
        window: None,
    })
}

fn only_worker(mut actions: Vec<Action>) -> SearchWorker {
    assert_eq!(actions.len(), 1);
    match actions.pop() {
        Some(Action::Spawn(worker)) => worker,
        other => panic!("expected one worker, found {:?}", other),
    }
}

fn pushed(settlement: Settlement) -> Vec<GithubResult> {
    match settlement {
        Settlement::Push(results) => results,
        other => panic!("expected results, found {:?}", other),
    }
}

#[test]
fn search_with_empty_remainder_starts_nothing() {
    let app = SearchContext::new();
    assert_eq!(app.search("gh ".to_string()), vec![]);
    assert_eq!(app.search("gh     ".to_string()), vec![]);
    assert_eq!(app.search("repo \t ".to_string()), vec![]);
}

#[test]
fn search_with_unknown_command_starts_nothing() {
    let app = SearchContext::new();
    assert_eq!(app.search("xyz something".to_string()), vec![]);
    assert_eq!(app.search("something".to_string()), vec![]);
    assert_eq!(app.search("".to_string()), vec![]);
}

#[test]
fn search_for_pull_requests_starts_nothing() {
    let app = SearchContext::new();
    assert_eq!(app.search("pr fix typo".to_string()), vec![]);
}

#[test]
fn search_starts_one_worker_with_the_remainder() {
    let app = SearchContext::new();
    let worker = only_worker(app.search("gh rust-lang".to_string()));
    assert_eq!(worker.query(), "rust-lang");
    let worker = only_worker(app.search("repo tokio".to_string()));
    assert_eq!(worker.query(), "tokio");
}

#[test]
fn search_hands_the_worker_trimmed_text() {
    let app = SearchContext::new();
    let worker = only_worker(app.search("gh   tokio rs  ".to_string()));
    assert_eq!(worker.query(), "tokio rs");
}

#[test]
fn search_leaves_the_store_alone() {
    let mut app = SearchContext::new();
    dispatch_search_result(&mut app, vec![result("a/b")]);
    let _ = app.search("gh tokio".to_string());
    assert_eq!(app.result(0), Some(result("a/b")));
}

#[test]
fn run_query_keeps_the_order_of_the_page() {
    let page = Ok(vec![repository("a/one"), repository("b/two"), repository("c/three")]);
    assert_eq!(run_query(page), Ok(vec![result("a/one"), result("b/two"), result("c/three")]));
    assert_eq!(run_query(Ok(vec![])), Ok(vec![]));
}

#[test]
fn run_query_hands_a_failure_on() {
    assert_eq!(run_query(Err("timeout".to_string())), Err("timeout".to_string()));
}

#[test]
fn settle_pushes_what_was_found() {
    let mut app = SearchContext::new();
    let worker = only_worker(app.handle_request(Request::Search("gh tokio".to_string())));
    let settlement = app.settle(worker, Ok(vec![repository("tokio-rs/tokio")]));
    assert_eq!(settlement, Settlement::Push(vec![result("tokio-rs/tokio")]));
}

#[test]
fn settle_reports_a_failure() {
    let app = SearchContext::new();
    let worker = only_worker(app.search("gh tokio".to_string()));
    let settlement = app.settle(worker, Err("connection refused".to_string()));
    assert_eq!(settlement, Settlement::Report("connection refused".to_string()));
}

#[test]
fn settle_after_interrupt_is_silent() {
    let mut app = SearchContext::new();
    let found = only_worker(app.search("gh tokio".to_string()));
    let failed = only_worker(app.search("gh serde".to_string()));
    app.interrupt();
    assert_eq!(app.settle(found, Ok(vec![repository("tokio-rs/tokio")])), Settlement::Cancelled);
    assert_eq!(app.settle(failed, Err("timeout".to_string())), Settlement::Cancelled);
}

#[test]
fn interrupt_spares_the_searches_that_follow_it() {
    let mut app = SearchContext::new();
    let before = only_worker(app.search("gh tokio".to_string()));
    app.interrupt();
    let after = only_worker(app.search("gh serde".to_string()));
    assert_eq!(app.settle(before, Ok(vec![repository("tokio-rs/tokio")])), Settlement::Cancelled);
    assert_eq!(
        app.settle(after, Ok(vec![repository("serde-rs/serde")])),
        Settlement::Push(vec![result("serde-rs/serde")])
    );
}

#[test]
fn new_search_does_not_cancel_the_one_before() {
    let app = SearchContext::new();
    let first = only_worker(app.search("gh tokio".to_string()));
    let second = only_worker(app.search("gh serde".to_string()));
    assert_eq!(pushed(app.settle(second, Ok(vec![repository("serde-rs/serde")]))).len(), 1);
    assert_eq!(pushed(app.settle(first, Ok(vec![repository("tokio-rs/tokio")]))).len(), 1);
}

#[test]
fn dispatch_appends_each_result_then_finishes() {
    let mut app = SearchContext::new();
    let responses =
        dispatch_search_result(&mut app, vec![result("a/one"), result("b/two"), result("c/three")]);
    assert_eq!(
        responses,
        vec![
            append(0, "a/one", "about one"),
            append(1, "b/two", "about two"),
            append(2, "c/three", "about three"),
            PluginResponse::Finished,
        ]
    );
}

#[test]
fn dispatch_of_nothing_only_finishes() {
    let mut app = SearchContext::new();
    dispatch_search_result(&mut app, vec![result("a/one")]);
    assert_eq!(dispatch_search_result(&mut app, vec![]), vec![PluginResponse::Finished]);
    assert_eq!(app.result(0), None);
}

#[test]
fn dispatch_replaces_the_store() {
    let mut app = SearchContext::new();
    dispatch_search_result(&mut app, vec![result("a/one"), result("b/two")]);
    dispatch_search_result(&mut app, vec![result("c/three")]);
    assert_eq!(app.result(0), Some(result("c/three")));
    assert_eq!(app.result(1), None);
}

#[test]
fn last_completion_wins_whatever_was_asked_last() {
    let mut app = SearchContext::new();
    let first = only_worker(app.handle_request(Request::Search("gh tokio".to_string())));
    let second = only_worker(app.handle_request(Request::Search("gh serde".to_string())));
    let late = pushed(app.settle(second, Ok(vec![repository("serde-rs/serde")])));
    dispatch_search_result(&mut app, late);
    let later = pushed(app.settle(first, Ok(vec![repository("tokio-rs/tokio")])));
    dispatch_search_result(&mut app, later);
    assert_eq!(app.result(0), Some(result("tokio-rs/tokio")));
    assert_eq!(app.result(1), None);
}

#[test]
fn activate_opens_the_entry_and_closes() {
    let mut app = SearchContext::new();
    dispatch_search_result(&mut app, vec![result("a/one"), result("b/two")]);
    assert_eq!(
        app.activate(1),
        vec![
            Action::Open("https://github.com/b/two".to_string()),
            Action::Respond(PluginResponse::Close),
        ]
    );
    assert_eq!(app.result(1), Some(result("b/two")));
}

#[test]
fn activate_out_of_bounds_does_nothing() {
    let mut app = SearchContext::new();
    assert_eq!(app.activate(0), vec![]);
    dispatch_search_result(&mut app, vec![result("a/one"), result("b/two")]);
    assert_eq!(app.activate(2), vec![]);
    assert_eq!(app.activate(u32::MAX), vec![]);
}

#[test]
fn interrupt_cancels_clears_and_finishes() {
    let mut app = SearchContext::new();
    dispatch_search_result(&mut app, vec![result("a/one")]);
    assert_eq!(
        app.interrupt(),
        vec![Action::Cancel, Action::Respond(PluginResponse::Finished)]
    );
    assert_eq!(app.result(0), None);
}

#[test]
fn exit_stops_and_other_requests_do_nothing() {
    let mut app = SearchContext::new();
    dispatch_search_result(&mut app, vec![result("a/one")]);
    assert_eq!(app.handle_request(Request::Exit), vec![Action::Stop]);
    assert_eq!(app.handle_request(Request::Other), vec![]);
    assert_eq!(app.result(0), Some(result("a/one")));
}

#[test]
fn scenario_search_then_two_repositories() {
    let mut app = SearchContext::new();
    let worker = only_worker(app.handle_request(Request::Search("gh tokio".to_string())));
    assert_eq!(worker.query(), "tokio");
    let page = Ok(vec![repository("tokio-rs/tokio"), repository("tokio-rs/tracing")]);
    let results = pushed(app.settle(worker, page));
    assert_eq!(
        dispatch_search_result(&mut app, results),
        vec![
            append(0, "tokio-rs/tokio", "about tokio"),
            append(1, "tokio-rs/tracing", "about tracing"),
            PluginResponse::Finished,
        ]
    );
}

#[test]
fn scenario_activate_the_first_entry() {
    let mut app = SearchContext::new();
    let worker = only_worker(app.handle_request(Request::Search("gh tokio".to_string())));
    let page = Ok(vec![repository("tokio-rs/tokio"), repository("tokio-rs/tracing")]);
    let results = pushed(app.settle(worker, page));
    dispatch_search_result(&mut app, results);
    assert_eq!(
        app.handle_request(Request::Activate(0)),
        vec![
            Action::Open("https://github.com/tokio-rs/tokio".to_string()),
            Action::Respond(PluginResponse::Close),
        ]
    );
}

#[test]
fn scenario_interrupt_then_activate() {
    let mut app = SearchContext::new();
    dispatch_search_result(&mut app, vec![result("tokio-rs/tokio")]);
    assert_eq!(
        app.handle_request(Request::Interrupt),
        vec![Action::Cancel, Action::Respond(PluginResponse::Finished)]
    );
    assert_eq!(app.handle_request(Request::Activate(0)), vec![]);
}

#[test]
fn scenario_interrupt_on_a_new_plugin() {
    let mut app = SearchContext::new();
    assert_eq!(
        app.handle_request(Request::Interrupt),
        vec![Action::Cancel, Action::Respond(PluginResponse::Finished)]
    );
    assert_eq!(app.handle_request(Request::Activate(0)), vec![]);
}

#[test]
fn scenario_interrupt_while_a_search_is_outstanding() {
    let mut app = SearchContext::new();
    let worker = only_worker(app.handle_request(Request::Search("gh tokio".to_string())));
    app.handle_request(Request::Interrupt);
    assert_eq!(app.result(0), None);
    let settlement = app.settle(worker, Ok(vec![repository("tokio-rs/tokio")]));
    assert_eq!(settlement, Settlement::Cancelled);
    assert_eq!(app.result(0), None);
}

#[test]
fn listen_serves_requests_in_their_order() {
    let mut app = SearchContext::new();
    dispatch_search_result(&mut app, vec![result("a/one"), result("b/two")]);
    let requests = vec![
        Request::Activate(1),
        Request::Other,
        Request::Interrupt,
        Request::Activate(1),
        Request::Search("xyz something".to_string()),
    ];
    assert_eq!(
        listen_for_request(&mut app, requests),
        vec![
            Action::Open("https://github.com/b/two".to_string()),
            Action::Respond(PluginResponse::Close),
            Action::Cancel,
            Action::Respond(PluginResponse::Finished),
        ]
    );
    assert_eq!(app.result(0), None);
}

#[test]
fn listen_stops_at_exit() {
    let mut app = SearchContext::new();
    dispatch_search_result(&mut app, vec![result("a/one")]);
    let requests = vec![
        Request::Activate(0),
        Request::Exit,
        Request::Interrupt,
        Request::Activate(0),
    ];
    assert_eq!(
        listen_for_request(&mut app, requests),
        vec![
            Action::Open("https://github.com/a/one".to_string()),
            Action::Respond(PluginResponse::Close),
            Action::Stop,
        ]
    );
    assert_eq!(app.result(0), Some(result("a/one")));
}

#[test]
fn listen_without_requests_does_nothing() {
    let mut app = SearchContext::new();
    assert_eq!(listen_for_request(&mut app, vec![]), vec![]);
}

#[test]
fn listen_hands_out_the_workers_it_started() {
    let mut app = SearchContext::new();
    let requests = vec![
        Request::Search("gh tokio".to_string()),
        Request::Interrupt,
        Request::Search("repo serde".to_string()),
    ];
    let mut actions = listen_for_request(&mut app, requests);
    assert_eq!(actions.len(), 4);
    let second = match actions.pop() {
        Some(Action::Spawn(worker)) => worker,
        other => panic!("expected a worker, found {:?}", other),
    };
    assert_eq!(actions.pop(), Some(Action::Respond(PluginResponse::Finished)));
    assert_eq!(actions.pop(), Some(Action::Cancel));
    let first = match actions.pop() {
        Some(Action::Spawn(worker)) => worker,
        other => panic!("expected a worker, found {:?}", other),
    };
    assert_eq!(first.query(), "tokio");
    assert_eq!(second.query(), "serde");
    assert_eq!(app.settle(first, Ok(vec![])), Settlement::Cancelled);
    assert_eq!(app.settle(second, Ok(vec![])), Settlement::Push(vec![]));
}
