//! Repositories as the search service reports them and as the plugin keeps
//! them.

use crate::launcher::{PluginResponse, PluginResponseView, PluginSearchResult, PluginSearchResultView};
use vstd::prelude::*;

verus! {

/// What the search service reports of one repository, as far as the plugin
/// reads it.
#[derive(Debug, PartialEq, Eq)]
pub struct Repository {
    /// The short name.
    pub name: String,
    /// Owner and name, where the service gives them.
    pub full_name: Option<String>,
    /// The description, where there is one.
    pub description: Option<String>,
    /// The address of the repository's page, where the service gives it.
    pub html_url: Option<String>,
}

/// What a [`Repository`] holds.
pub struct RepositoryView {
    pub name: Seq<char>,
    pub full_name: Option<Seq<char>>,
    pub description: Option<Seq<char>>,
    pub html_url: Option<Seq<char>>,
}

impl RepositoryView {
    /// The entry that the plugin keeps for this repository: the full name if
    /// there is one and the short name otherwise; description and address are
    /// empty where the service gave none.
    pub open spec fn summary(self) -> GithubResultView {
        GithubResultView {
            name: match self.full_name {
                Some(full_name) => full_name,
                None => self.name,
            },
            description: match self.description {
                Some(description) => description,
                None => Seq::empty(),
            },
            uri: match self.html_url {
                Some(html_url) => html_url,
                None => Seq::empty(),
            },
        }
    }
}

impl View for Repository {
    type V = RepositoryView;

    open spec fn view(&self) -> RepositoryView {
        RepositoryView {
            name: self.name@,
            full_name: match self.full_name {
                Some(full_name) => Some(full_name@),
                None => None,
            },
            description: match self.description {
                Some(description) => Some(description@),
                None => None,
            },
            html_url: match self.html_url {
                Some(html_url) => Some(html_url@),
                None => None,
            },
        }
    }
}

/// One search result as the plugin keeps it.
#[derive(Debug, PartialEq, Eq)]
pub struct GithubResult {
    pub name: String,
    pub description: String,
    pub uri: String,
}

/// What a [`GithubResult`] holds.
pub struct GithubResultView {
    pub name: Seq<char>,
    pub description: Seq<char>,
    pub uri: Seq<char>,
}

impl GithubResultView {
    /// The number under which the host is told of the entry at position
    /// `idx`: the position itself as long as it fits, its low 32 bits beyond.
    pub open spec fn entry_id(idx: int) -> u32 {
        (idx % 0x1_0000_0000) as u32
    }

    /// The list entry that tells the host of this result at position `idx`.
    pub open spec fn entry(self, idx: int) -> PluginSearchResultView {
        PluginSearchResultView {
            id: Self::entry_id(idx),
            name: self.name,
            description: self.description,
            keywords: None,
            icon: None,
            command: None,
            window: None,
        }
    }
}

/// A position that fits the host's numbers is its own number.
pub proof fn lemma_entry_id_is_position(idx: int)
    requires
        0 <= idx <= u32::MAX,
    ensures
        GithubResultView::entry_id(idx) == idx,
{
}

impl View for GithubResult {
    type V = GithubResultView;

    open spec fn view(&self) -> GithubResultView {
        GithubResultView { name: self.name@, description: self.description@, uri: self.uri@ }
    }
}

impl Clone for GithubResult {
    fn clone(&self) -> (copy: Self)
        ensures
            copy == *self,
    {
        GithubResult {
            name: self.name.clone(),
            description: self.description.clone(),
            uri: self.uri.clone(),
        }
    }
}

impl GithubResult {
    /// Keeps of a repository what the plugin shows and opens.
    pub fn from(repository: Repository) -> (result: Self)
        ensures
            result@ == repository@.summary(),
    {
        GithubResult {
            name: repository.full_name.unwrap_or(repository.name),
            description: repository.description.unwrap_or_default(),
            uri: repository.html_url.unwrap_or_default(),
        }
    }

    /// The response that adds this result to the host's list as the entry at
    /// position `idx`.
    pub fn to_plugin_response(&self, idx: usize) -> (response: PluginResponse)
        ensures
            response@ == PluginResponseView::Append(self@.entry(idx as int)),
    {
        let id: u32 = #[verifier::truncate] (idx as u32);
        assert(id == GithubResultView::entry_id(idx as int)) by (bit_vector)
            requires id == idx as u32;
        PluginResponse::Append(
            PluginSearchResult {
                id,
                name: self.name.clone(),
                description: self.description.clone(),
                keywords: None,
                icon: None,
                command: None,
                window: None,
            },
        )
    }
}

} // verus!
