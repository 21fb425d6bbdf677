//! Which suites a run keeps, by their names.

use vstd::prelude::*;

use crate::config::Configuration;
use crate::dto::TestSuite;
use crate::text::{contains_str, contains_text, non_empty, split_non_empty, split_pieces, texts_view};

verus! {

/// Keeps every suite.
#[derive(Debug, Clone, Copy)]
pub struct EmptyFilter {}

impl Default for EmptyFilter {
    fn default() -> (f: EmptyFilter) {
        EmptyFilter {}
    }
}

impl EmptyFilter {
    pub fn start_suite(&self, suite: &TestSuite) -> (b: bool)
        ensures
            b,
    {
        true
    }
}

/// Keeps the suites whose name contains one of the terms.
#[derive(Debug, Clone)]
pub struct SimpleFilter {
    pub filter: Vec<String>,
}

/// The terms of a filter expression: its non-empty comma-separated pieces.
pub open spec fn filter_terms(expression: Seq<char>) -> Seq<Seq<char>> {
    split_pieces(expression, ',').filter(|p: Seq<char>| non_empty(p))
}

/// Some term occurs in the name.
pub open spec fn some_term_occurs(terms: Seq<Seq<char>>, name: Seq<char>) -> bool {
    exists|i: int| 0 <= i < terms.len() && contains_text(name, terms[i])
}

impl SimpleFilter {
    /// A filter whose terms are the non-empty comma-separated pieces of the expression.
    pub fn create(filter_expression: &str) -> (f: SimpleFilter)
        ensures
            texts_view(f.filter@) == filter_terms(filter_expression@),
    {
        SimpleFilter { filter: split_non_empty(filter_expression, ',') }
    }

    /// Whether the suite's name contains one of the terms.
    pub fn start_suite(&self, suite: &TestSuite) -> (b: bool)
        ensures
            b == some_term_occurs(texts_view(self.filter@), suite.name@),
    {
        let name = suite.name();
        let mut i: usize = 0;
        while i < self.filter.len()
            invariant
                name == &suite.name,
                i <= self.filter.len(),
                forall|k: int| 0 <= k < i ==> !contains_text(name@, #[trigger] texts_view(self.filter@)[k]),
            decreases self.filter.len() - i,
        {
            if contains_str(name.as_str(), self.filter[i].as_str()) {
                assert(texts_view(self.filter@)[i as int] == self.filter@[i as int]@);
                return true;
            }
            i = i + 1;
        }
        false
    }
}

/// The filter of a run: none, or a simple one.
#[derive(Debug, Clone)]
pub enum Filter {
    Empty(EmptyFilter),
    Simple(SimpleFilter),
}

/// Whether the filter keeps a suite with that name.
pub open spec fn filter_keeps(f: Filter, name: Seq<char>) -> bool {
    match f {
        Filter::Empty(_) => true,
        Filter::Simple(s) => some_term_occurs(texts_view(s.filter@), name),
    }
}

impl Filter {
    pub fn start_suite(&self, suite: &TestSuite) -> (b: bool)
        ensures
            b == filter_keeps(*self, suite.name@),
    {
        match self {
            Filter::Empty(f) => f.start_suite(suite),
            Filter::Simple(f) => f.start_suite(suite),
        }
    }
}

/// The filter that a run's configuration asks for: without a filter expression every
/// suite is kept; with one, the suites whose name contains one of its terms.
pub fn create_filter(config: &Configuration) -> (f: Filter)
    ensures
        config.filter is None ==> f is Empty,
        config.filter matches Some(e) ==> (f matches Filter::Simple(s) && texts_view(s.filter@)
            == filter_terms(e@)),
{
    match config.filter() {
        Some(expression) => Filter::Simple(SimpleFilter::create(expression.as_str())),
        None => Filter::Empty(EmptyFilter::default()),
    }
}

/// A filter made from an expression keeps exactly the suites whose name contains a
/// non-empty comma-separated piece of the expression.
pub proof fn lemma_simple_filter_keeps(f: SimpleFilter, expression: Seq<char>, name: Seq<char>)
    requires
        texts_view(f.filter@) == filter_terms(expression),
    ensures
        filter_keeps(Filter::Simple(f), name) <==> exists|i: int|
            0 <= i < split_pieces(expression, ',').len() && split_pieces(expression, ',')[i].len() > 0
                && contains_text(name, split_pieces(expression, ',')[i]),
{
    let pieces = split_pieces(expression, ',');
    let pred = |p: Seq<char>| non_empty(p);
    let terms = pieces.filter(pred);
    broadcast use vstd::seq_lib::group_filter_ensures;
    if filter_keeps(Filter::Simple(f), name) {
        let i = choose|i: int| 0 <= i < terms.len() && contains_text(name, terms[i]);
        assert(terms.contains(terms[i]));
        pieces.lemma_filter_contains_rev(pred, terms[i]);
        let j = choose|j: int| 0 <= j < pieces.len() && pieces[j] == terms[i];
        assert(pieces[j].len() > 0 && contains_text(name, pieces[j]));
    }
    if exists|i: int| 0 <= i < pieces.len() && pieces[i].len() > 0 && contains_text(name, pieces[i]) {
        let i = choose|i: int| 0 <= i < pieces.len() && pieces[i].len() > 0 && contains_text(name, pieces[i]);
        assert(pred(pieces[i]));
        assert(terms.contains(pieces[i]));
        let j = choose|j: int| 0 <= j < terms.len() && terms[j] == pieces[i];
        assert(contains_text(name, terms[j]));
    }
}

} // verus!
