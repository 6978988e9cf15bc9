//! The grammar of what the user types: a command, a space, and what to look
//! for.

use crate::text::{
    first_index_of, is_blank, lemma_split_point, lemma_trimmed_empty_iff_blank,
    lemma_trimmed_is_tight, split_once, trim, trimmed, white_space,
};
use vstd::prelude::*;

verus! {

/// What a line of text asks for.
#[derive(Debug, PartialEq, Eq)]
pub enum Query {
    /// A search for repositories.
    RepoSearch(String),
    /// A search for pull requests.
    PrSearch(String),
    /// Nothing that the plugin knows.
    Unknown,
}

/// What a [`Query`] holds.
pub enum QueryView {
    RepoSearch(Seq<char>),
    PrSearch(Seq<char>),
    Unknown,
}

impl View for Query {
    type V = QueryView;

    open spec fn view(&self) -> QueryView {
        match *self {
            Query::RepoSearch(text) => QueryView::RepoSearch(text@),
            Query::PrSearch(text) => QueryView::PrSearch(text@),
            Query::Unknown => QueryView::Unknown,
        }
    }
}

/// The command `gh`.
pub open spec fn command_gh() -> Seq<char> {
    seq!['g', 'h']
}

/// The command `repo`.
pub open spec fn command_repo() -> Seq<char> {
    seq!['r', 'e', 'p', 'o']
}

/// The command `pr`.
pub open spec fn command_pr() -> Seq<char> {
    seq!['p', 'r']
}

/// What `text` asks for. The command is what stands before the first space,
/// and what follows that space is what to look for. `gh` and `repo` ask for
/// repositories, `pr` for pull requests; text without a space, or with another
/// command, asks for nothing.
pub open spec fn parsed(text: Seq<char>) -> QueryView {
    if !text.contains(' ') {
        QueryView::Unknown
    } else {
        let at = first_index_of(text, ' ');
        let command = text.take(at);
        let remainder = text.skip(at + 1);
        if command == command_gh() || command == command_repo() {
            QueryView::RepoSearch(remainder)
        } else if command == command_pr() {
            QueryView::PrSearch(remainder)
        } else {
            QueryView::Unknown
        }
    }
}

impl QueryView {
    /// What is sent to the search service for this query, if anything: the
    /// trimmed text of a repository search, unless that text is blank. A search
    /// for pull requests is recognised and sends nothing.
    pub open spec fn remote_query(self) -> Option<Seq<char>> {
        match self {
            QueryView::RepoSearch(text) => if is_blank(text) {
                None
            } else {
                Some(trimmed(text))
            },
            QueryView::PrSearch(_) => None,
            QueryView::Unknown => None,
        }
    }
}

/// What a command, a space and a remainder ask for, whatever the remainder
/// holds: the command alone decides the kind of the query, and the remainder
/// is what to look for.
pub proof fn lemma_parsed_command_line(command: Seq<char>, remainder: Seq<char>)
    requires
        !command.contains(' '),
    ensures
        parsed(command + seq![' '] + remainder) == if command == command_gh() || command
            == command_repo() {
            QueryView::RepoSearch(remainder)
        } else if command == command_pr() {
            QueryView::PrSearch(remainder)
        } else {
            QueryView::Unknown
        },
{
    lemma_split_point(command, ' ', remainder);
}

/// Nothing is sent to the search service for text without a space, for text
/// whose command is not known, for a search for pull requests, or for a
/// remainder that is blank.
pub proof fn lemma_nothing_to_send(text: Seq<char>)
    ensures
        !text.contains(' ') ==> parsed(text).remote_query() is None,
        parsed(text) is Unknown ==> parsed(text).remote_query() is None,
        parsed(text) is PrSearch ==> parsed(text).remote_query() is None,
        parsed(text) matches QueryView::RepoSearch(remainder) ==> (parsed(text).remote_query()
            is None <==> is_blank(remainder)),
{
}

/// What is sent to the search service is never empty, and neither begins nor
/// ends with white space.
pub proof fn lemma_remote_query_is_tight(query: QueryView)
    ensures
        query.remote_query() matches Some(remote) ==> remote.len() > 0 && !white_space(
            remote.first(),
        ) && !white_space(remote.last()),
{
    if let QueryView::RepoSearch(text) = query {
        if !is_blank(text) {
            lemma_trimmed_empty_iff_blank(text);
            lemma_trimmed_is_tight(text);
        }
    }
}

impl Query {
    /// Reads what `text` asks for.
    pub fn parse(text: &str) -> (query: Query)
        ensures
            query@ == parsed(text@),
    {
        match split_once(text, ' ') {
            None => Query::Unknown,
            Some((command, remainder)) => {
                proof {
                    reveal_strlit("gh");
                    reveal_strlit("repo");
                    reveal_strlit("pr");
                    assert("gh"@ =~= command_gh());
                    assert("repo"@ =~= command_repo());
                    assert("pr"@ =~= command_pr());
                }
                let command = command.to_owned();
                if command == "gh".to_owned() || command == "repo".to_owned() {
                    Query::RepoSearch(remainder.to_owned())
                } else if command == "pr".to_owned() {
                    Query::PrSearch(remainder.to_owned())
                } else {
                    Query::Unknown
                }
            },
        }
    }

    /// The text to send to the search service for this query, if any.
    pub fn remote_query(&self) -> (remote: Option<String>)
        ensures
            remote is Some <==> self@.remote_query() is Some,
            remote matches Some(text) ==> Some(text@) == self@.remote_query(),
    {
        match self {
            Query::RepoSearch(text) => {
                let inner = trim(text.as_str());
                proof {
                    lemma_trimmed_empty_iff_blank(text@);
                }
                if inner.is_empty() {
                    None
                } else {
                    Some(inner.to_owned())
                }
            },
            Query::PrSearch(_) => None,
            Query::Unknown => None,
        }
    }
}

} // verus!
