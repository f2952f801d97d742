//! The engine-facing query payload and response, and the stream type a
//! federated request is scoped to.
//!
//! The local query engine itself is an external collaborator: these types
//! carry only the fields the federation layer reads or fills.

use vstd::prelude::*;

verus! {

/// What the federation layer reads out of a sub-query payload: the query
/// text, and whether a post-processing function is attached. The rest of
/// the payload is the engine's business and travels opaquely beside it.
pub struct SearchRequest {
    pub sql: String,
    pub query_fn: Option<String>,
}

/// Mathematical image of a `SearchRequest`.
pub struct SearchRequestView {
    pub sql: Seq<char>,
    pub query_fn: Option<Seq<char>>,
}

impl View for SearchRequest {
    type V = SearchRequestView;

    open spec fn view(&self) -> SearchRequestView {
        SearchRequestView {
            sql: self.sql@,
            query_fn: match self.query_fn {
                Option::Some(f) => Option::Some(f@),
                Option::None => Option::None,
            },
        }
    }
}

/// One cluster's answer to a sub-query. A failed sub-query is embedded
/// here as a degraded response whose `function_error` is the failure
/// description; it never surfaces as a request-level error.
pub struct SearchResponse {
    /// Total elapsed milliseconds until this response was settled.
    pub took: usize,
    /// Milliseconds the sub-query waited before dispatch.
    pub took_wait: usize,
    /// The matched rows, each an opaque serialized record.
    pub hits: Vec<String>,
    /// Bytes scanned to produce this response.
    pub scan_size: usize,
    /// Correlation id of the top-level request that produced it.
    pub session_id: String,
    /// Empty on success; the failure description otherwise.
    pub function_error: String,
}

/// Mathematical image of a `SearchResponse`.
pub struct SearchResponseView {
    pub took: usize,
    pub took_wait: usize,
    pub hits: Seq<Seq<char>>,
    pub scan_size: usize,
    pub session_id: Seq<char>,
    pub function_error: Seq<char>,
}

impl View for SearchResponse {
    type V = SearchResponseView;

    open spec fn view(&self) -> SearchResponseView {
        SearchResponseView {
            took: self.took,
            took_wait: self.took_wait,
            hits: self.hits@.map_values(|h: String| h@),
            scan_size: self.scan_size,
            session_id: self.session_id@,
            function_error: self.function_error@,
        }
    }
}

/// The response every field of which is empty or zero.
pub open spec fn empty_response() -> SearchResponseView {
    SearchResponseView {
        took: 0,
        took_wait: 0,
        hits: Seq::empty(),
        scan_size: 0,
        session_id: Seq::empty(),
        function_error: Seq::empty(),
    }
}

/// The degraded response that stands in for a failed sub-query: empty but
/// for the failure description.
pub open spec fn degraded_response(description: Seq<char>) -> SearchResponseView {
    SearchResponseView { function_error: description, ..empty_response() }
}

/// `base` with the correlation id and the two timing fields stamped in,
/// everything else untouched.
pub open spec fn stamped_response(
    base: SearchResponseView,
    session_id: Seq<char>,
    took: usize,
    took_wait: usize,
) -> SearchResponseView {
    SearchResponseView { session_id, took, took_wait, ..base }
}

impl Default for SearchResponse {
    /// The all-empty response.
    fn default() -> (r: Self)
        ensures
            r@ == empty_response(),
    {
        let r = SearchResponse {
            took: 0,
            took_wait: 0,
            hits: Vec::new(),
            scan_size: 0,
            session_id: String::new(),
            function_error: String::new(),
        };
        proof {
            assert(r@.hits =~= Seq::<Seq<char>>::empty());
            assert(r@ =~= empty_response());
        }
        r
    }
}

impl SearchResponse {
    /// Builds the degraded stand-in for a failed sub-query.
    pub fn degraded(description: String) -> (r: Self)
        ensures
            r@ == degraded_response(description@),
    {
        let mut r = SearchResponse::default();
        r.function_error = description;
        proof {
            assert(r@ =~= degraded_response(description@));
        }
        r
    }

    /// Stamps the correlation id of the top-level request into the response.
    pub fn set_session_id(&mut self, session_id: String)
        ensures
            final(self)@ == (SearchResponseView { session_id: session_id@, ..old(self)@ }),
    {
        self.session_id = session_id;
        proof {
            assert(self@ =~= (SearchResponseView { session_id: self.session_id@, ..old(self)@ }));
        }
    }

    /// Stamps the elapsed and wait milliseconds into the response.
    pub fn set_local_took(&mut self, took: usize, took_wait: usize)
        ensures
            final(self)@ == (SearchResponseView { took, took_wait, ..old(self)@ }),
    {
        self.took = took;
        self.took_wait = took_wait;
        proof {
            assert(self@ =~= (SearchResponseView { took: self.took, took_wait: self.took_wait, ..old(self)@ }));
        }
    }
}

} // verus!
