//! The search request: a query, an optional facet filter and a result limit.
use crate::query::{CompiledQuery, CreateQuery, Error, FacetQuery, Query};
use vstd::prelude::*;

verus! {

/// The number of results a request asks for when it names none.
pub const DEFAULT_RESULT_LIMIT: usize = 100;

/// Library-wide settings.
pub struct Settings {}

impl Settings {
    pub fn default_result_limit() -> (r: usize)
        ensures
            r == DEFAULT_RESULT_LIMIT,
    {
        DEFAULT_RESULT_LIMIT
    }
}

/// One search request.
#[derive(Debug)]
pub struct Search {
    pub query: Option<Query>,
    pub facets: Option<FacetQuery>,
    pub limit: usize,
}

/// The request that browses every document.
pub open spec fn all_docs_spec() -> Search {
    Search { query: Some(Query::All), facets: None, limit: DEFAULT_RESULT_LIMIT }
}

/// The request read from a body whose fields are given or absent: an absent
/// query matches all documents, an absent limit is the default limit.
pub open spec fn request_spec(query: Option<Query>, facets: Option<FacetQuery>, limit: Option<usize>) -> Search {
    Search {
        query: match query {
            Some(q) => Some(q),
            None => Some(Query::All),
        },
        facets,
        limit: match limit {
            Some(l) => l,
            None => DEFAULT_RESULT_LIMIT,
        },
    }
}

/// The clause a request runs: its query, or match-all where it has none.
pub open spec fn effective_query(s: Search) -> Query {
    match s.query {
        Some(q) => q,
        None => Query::All,
    }
}

impl Search {
    pub fn new(query: Option<Query>, facets: Option<FacetQuery>, limit: usize) -> (r: Self)
        ensures
            r == (Search { query, facets, limit }),
    {
        Search { query, facets, limit }
    }

    /// The query of a request that names none.
    pub fn all() -> (r: Option<Query>)
        ensures
            r == Some(Query::All),
    {
        Some(Query::All)
    }

    /// The request that browses every document.
    pub fn all_docs() -> (r: Self)
        ensures
            r == all_docs_spec(),
    {
        Self { query: Some(Query::All), facets: None, limit: Settings::default_result_limit() }
    }

    /// Builds the request from the fields a body gives, filling in the
    /// defaults of those it leaves out. A limit of zero is kept as it is.
    pub fn with_defaults(query: Option<Query>, facets: Option<FacetQuery>, limit: Option<usize>) -> (r: Self)
        ensures
            r == request_spec(query, facets, limit),
    {
        let query = match query {
            Some(q) => Some(q),
            None => Search::all(),
        };
        let limit = match limit {
            Some(l) => l,
            None => Settings::default_result_limit(),
        };
        Search { query, facets, limit }
    }
}

impl CreateQuery for Search {
    /// A request runs its query, or match-all where it has none.
    open spec fn clause(&self) -> Query {
        effective_query(*self)
    }

    fn create_query(&self, schema: &tantivy::schema::Schema) -> (r: Result<CompiledQuery, Error>) {
        match &self.query {
            Some(q) => q.create_query(schema),
            None => Query::All.create_query(schema),
        }
    }
}

/// The request read from an empty body is the one that browses every document.
pub proof fn lemma_empty_request_is_all_docs()
    ensures
        request_spec(None, None, None) == all_docs_spec(),
{
}

} // verus!
