//! The results of the most recent search.

use crate::model::{GithubResult, GithubResultView};
use vstd::prelude::*;

verus! {

/// What each of `results` holds, in the same order.
pub open spec fn views_of(results: Seq<GithubResult>) -> Seq<GithubResultView> {
    results.map_values(|result: GithubResult| result@)
}

/// The ordered list of results that the host was last told of. A position in
/// it is the number by which the host later asks for an entry, so the list is
/// only ever replaced or emptied as a whole.
pub struct ResultStore {
    results: Vec<GithubResult>,
}

impl View for ResultStore {
    type V = Seq<GithubResultView>;

    closed spec fn view(&self) -> Seq<GithubResultView> {
        views_of(self.results@)
    }
}

impl ResultStore {
    /// A store that holds nothing.
    pub fn new() -> (store: Self)
        ensures
            store@ == Seq::<GithubResultView>::empty(),
    {
        let store = ResultStore { results: Vec::new() };
        assert(store@ =~= Seq::<GithubResultView>::empty());
        store
    }

    /// Puts `results` in the place of whatever the store held.
    pub fn replace(&mut self, results: Vec<GithubResult>)
        ensures
            final(self)@ == views_of(results@),
    {
        self.results = results;
    }

    /// Empties the store.
    pub fn clear(&mut self)
        ensures
            final(self)@ == Seq::<GithubResultView>::empty(),
    {
        self.results.clear();
        assert(self@ =~= Seq::<GithubResultView>::empty());
    }

    /// Number of results in the store.
    pub fn len(&self) -> (len: usize)
        ensures
            len == self@.len(),
    {
        self.results.len()
    }

    /// A copy of the result at position `index`, or nothing where the store
    /// holds no such position.
    pub fn get(&self, index: usize) -> (found: Option<GithubResult>)
        ensures
            found is Some <==> index < self@.len(),
            found matches Some(result) ==> result@ == self@[index as int],
    {
        if index < self.results.len() {
            Some(self.results[index].clone())
        } else {
            None
        }
    }
}

} // verus!
