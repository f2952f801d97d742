//! The federated search orchestrator: routing of each sub-query to local
//! or remote execution, settling of each outcome into the per-cluster
//! result, metric and usage bookkeeping, and the ordered assembly of the
//! federated response.
//!
//! Dispatch itself (the local engine call, the remote HTTP round trip) is
//! I/O performed by the surrounding host; it reports back one
//! [`SubQueryEvent`] per sub-query, and everything the orchestrator
//! decides from there is verified here.

use vstd::prelude::*;
use crate::proxy::{Cluster, ClusterRequest, ClusterRequestView, ClusterResponse, ClusterResponseView};
use crate::search::{SearchResponse, SearchResponseView, degraded_response, stamped_response};
use crate::stream::{parse_stream_type, stream_type_of, view_param, StreamType};

verus! {

/// What came back from one local engine invocation.
pub enum LocalOutcome {
    Succeeded(SearchResponse),
    Failed(String),
}

/// Mathematical image of a `LocalOutcome`.
pub enum LocalOutcomeView {
    Succeeded(SearchResponseView),
    Failed(Seq<char>),
}

impl View for LocalOutcome {
    type V = LocalOutcomeView;

    open spec fn view(&self) -> LocalOutcomeView {
        match *self {
            LocalOutcome::Succeeded(res) => LocalOutcomeView::Succeeded(res@),
            LocalOutcome::Failed(description) => LocalOutcomeView::Failed(description@),
        }
    }
}

/// What came back from one remote HTTP round trip: a parsed response, a
/// transport-level success whose body did not parse as the expected
/// schema, or a transport failure (connection error, timeout, non-2xx).
pub enum RemoteOutcome {
    Parsed(SearchResponse),
    BodyMalformed(String),
    TransportFailed(String),
}

/// Mathematical image of a `RemoteOutcome`.
pub enum RemoteOutcomeView {
    Parsed(SearchResponseView),
    BodyMalformed(Seq<char>),
    TransportFailed(Seq<char>),
}

impl View for RemoteOutcome {
    type V = RemoteOutcomeView;

    open spec fn view(&self) -> RemoteOutcomeView {
        match *self {
            RemoteOutcome::Parsed(res) => RemoteOutcomeView::Parsed(res@),
            RemoteOutcome::BodyMalformed(description) => RemoteOutcomeView::BodyMalformed(
                description@,
            ),
            RemoteOutcome::TransportFailed(description) => RemoteOutcomeView::TransportFailed(
                description@,
            ),
        }
    }
}

/// The completion of one sub-query, as the host hands it back. A local
/// completion carries the sub-query's own elapsed and pre-dispatch wait
/// times in milliseconds.
pub enum SubQueryEvent {
    Local { outcome: LocalOutcome, elapsed_ms: usize, wait_ms: usize },
    Remote { outcome: RemoteOutcome },
}

/// Mathematical image of a `SubQueryEvent`.
pub enum SubQueryEventView {
    Local { outcome: LocalOutcomeView, elapsed_ms: usize, wait_ms: usize },
    Remote { outcome: RemoteOutcomeView },
}

impl View for SubQueryEvent {
    type V = SubQueryEventView;

    open spec fn view(&self) -> SubQueryEventView {
        match *self {
            SubQueryEvent::Local { outcome, elapsed_ms, wait_ms } => SubQueryEventView::Local {
                outcome: outcome@,
                elapsed_ms,
                wait_ms,
            },
            SubQueryEvent::Remote { outcome } => SubQueryEventView::Remote { outcome: outcome@ },
        }
    }
}

/// One latency observation plus request count increment, tagged the way
/// the metrics registry expects.
pub struct MetricsUpdate {
    pub endpoint: String,
    pub status: u16,
    pub org_id: String,
    pub stream_type: StreamType,
    pub latency_ms: usize,
}

/// Mathematical image of a `MetricsUpdate`.
pub struct MetricsUpdateView {
    pub endpoint: Seq<char>,
    pub status: u16,
    pub org_id: Seq<char>,
    pub stream_type: StreamType,
    pub latency_ms: usize,
}

impl View for MetricsUpdate {
    type V = MetricsUpdateView;

    open spec fn view(&self) -> MetricsUpdateView {
        MetricsUpdateView {
            endpoint: self.endpoint@,
            status: self.status,
            org_id: self.org_id@,
            stream_type: self.stream_type,
            latency_ms: self.latency_ms,
        }
    }
}

/// The usage record of one successful local sub-query, handed to the
/// usage-accounting sink.
pub struct RequestStats {
    pub records: usize,
    pub response_time_ms: usize,
    pub size: usize,
    pub request_body: String,
    pub num_fn: u16,
}

/// Mathematical image of a `RequestStats`.
pub struct RequestStatsView {
    pub records: nat,
    pub response_time_ms: usize,
    pub size: usize,
    pub request_body: Seq<char>,
    pub num_fn: u16,
}

impl View for RequestStats {
    type V = RequestStatsView;

    open spec fn view(&self) -> RequestStatsView {
        RequestStatsView {
            records: self.records as nat,
            response_time_ms: self.response_time_ms,
            size: self.size,
            request_body: self.request_body@,
            num_fn: self.num_fn,
        }
    }
}

/// Everything one settled sub-query produces: its entry of the federated
/// response, and the metric and usage records owed for it.
pub struct SubQueryReport {
    pub result: ClusterResponse,
    pub metrics: Option<MetricsUpdate>,
    pub usage: Option<RequestStats>,
}

/// Mathematical image of a `SubQueryReport`.
pub struct SubQueryReportView {
    pub result: ClusterResponseView,
    pub metrics: Option<MetricsUpdateView>,
    pub usage: Option<RequestStatsView>,
}

impl View for SubQueryReport {
    type V = SubQueryReportView;

    open spec fn view(&self) -> SubQueryReportView {
        SubQueryReportView {
            result: self.result@,
            metrics: match self.metrics {
                Option::Some(m) => Option::Some(m@),
                Option::None => Option::None,
            },
            usage: match self.usage {
                Option::Some(u) => Option::Some(u@),
                Option::None => Option::None,
            },
        }
    }
}

/// The response a sub-query settles to: a successful local response is
/// stamped with the correlation id and its timings; a successful remote
/// response is used as-is; every failure becomes the degraded response
/// that embeds its description.
pub open spec fn response_of(ev: SubQueryEventView, session_id: Seq<char>) -> SearchResponseView {
    match ev {
        SubQueryEventView::Local { outcome, elapsed_ms, wait_ms } => match outcome {
            LocalOutcomeView::Succeeded(res) => stamped_response(
                res,
                session_id,
                elapsed_ms,
                wait_ms,
            ),
            LocalOutcomeView::Failed(description) => degraded_response(description),
        },
        SubQueryEventView::Remote { outcome } => match outcome {
            RemoteOutcomeView::Parsed(res) => res,
            RemoteOutcomeView::BodyMalformed(description) => degraded_response(description),
            RemoteOutcomeView::TransportFailed(description) => degraded_response(description),
        },
    }
}

/// The metric record a sub-query settles to: local completions are
/// observed under the search endpoint with status 200 or 500; remote
/// completions are the peer's to account for.
pub open spec fn metrics_of(
    ev: SubQueryEventView,
    org_id: Seq<char>,
    stream_type: StreamType,
) -> Option<MetricsUpdateView> {
    match ev {
        SubQueryEventView::Local { outcome, elapsed_ms, .. } => Option::Some(
            MetricsUpdateView {
                endpoint: "/api/org/_search"@,
                status: if outcome is Succeeded {
                    200
                } else {
                    500
                },
                org_id,
                stream_type,
                latency_ms: elapsed_ms,
            },
        ),
        SubQueryEventView::Remote { .. } => Option::None,
    }
}

/// The usage record a sub-query settles to: only a successful local
/// execution is charged, with its row count, scanned bytes, elapsed time,
/// the query text, and whether a post-processing function was attached.
pub open spec fn usage_of(
    req: ClusterRequestView,
    ev: SubQueryEventView,
) -> Option<RequestStatsView> {
    match ev {
        SubQueryEventView::Local {
            outcome: LocalOutcomeView::Succeeded(res),
            elapsed_ms,
            ..
        } => Option::Some(
            RequestStatsView {
                records: res.hits.len(),
                response_time_ms: elapsed_ms,
                size: res.scan_size,
                request_body: req.search_request.sql,
                num_fn: if req.search_request.query_fn is Some {
                    1
                } else {
                    0
                },
            },
        ),
        _ => Option::None,
    }
}

/// Everything one settled sub-query amounts to. The result entry always
/// carries the originating cluster descriptor.
pub open spec fn report_of(
    req: ClusterRequestView,
    ev: SubQueryEventView,
    org_id: Seq<char>,
    stream_type: StreamType,
    session_id: Seq<char>,
) -> SubQueryReportView {
    SubQueryReportView {
        result: ClusterResponseView { cluster: req.cluster, response: response_of(ev, session_id) },
        metrics: metrics_of(ev, org_id, stream_type),
        usage: usage_of(req, ev),
    }
}

/// Settles one sub-query: pairs the completion the host reported with the
/// originating request, and produces the result entry plus the metric and
/// usage records owed for it. No failure escapes; every outcome becomes a
/// value.
pub fn settle(
    req: ClusterRequest,
    ev: SubQueryEvent,
    org_id: &String,
    stream_type: StreamType,
    session_id: &String,
) -> (r: SubQueryReport)
    ensures
        r@ == report_of(req@, ev@, org_id@, stream_type, session_id@),
{
    match ev {
        SubQueryEvent::Local { outcome, elapsed_ms, wait_ms } => match outcome {
            LocalOutcome::Succeeded(res) => {
                let mut res = res;
                let records = res.hits.len();
                let scan_size = res.scan_size;
                res.set_session_id(session_id.clone());
                res.set_local_took(elapsed_ms, wait_ms);
                let num_fn: u16 = if req.search_request.query_fn.is_some() {
                    1
                } else {
                    0
                };
                let usage = RequestStats {
                    records,
                    response_time_ms: elapsed_ms,
                    size: scan_size,
                    request_body: req.search_request.sql,
                    num_fn,
                };
                let metrics = MetricsUpdate {
                    endpoint: String::from_str("/api/org/_search"),
                    status: 200,
                    org_id: org_id.clone(),
                    stream_type,
                    latency_ms: elapsed_ms,
                };
                let r = SubQueryReport {
                    result: ClusterResponse { cluster: req.cluster, response: res },
                    metrics: Option::Some(metrics),
                    usage: Option::Some(usage),
                };
                proof {
                    assert(r@ =~~= report_of(req@, ev@, org_id@, stream_type, session_id@));
                }
                r
            },
            LocalOutcome::Failed(description) => {
                let metrics = MetricsUpdate {
                    endpoint: String::from_str("/api/org/_search"),
                    status: 500,
                    org_id: org_id.clone(),
                    stream_type,
                    latency_ms: elapsed_ms,
                };
                let r = SubQueryReport {
                    result: ClusterResponse {
                        cluster: req.cluster,
                        response: SearchResponse::degraded(description),
                    },
                    metrics: Option::Some(metrics),
                    usage: Option::None,
                };
                proof {
                    assert(r@ =~~= report_of(req@, ev@, org_id@, stream_type, session_id@));
                }
                r
            },
        },
        SubQueryEvent::Remote { outcome } => {
            let response = match outcome {
                RemoteOutcome::Parsed(res) => res,
                RemoteOutcome::BodyMalformed(description) => SearchResponse::degraded(description),
                RemoteOutcome::TransportFailed(description) => SearchResponse::degraded(
                    description,
                ),
            };
            let r = SubQueryReport {
                result: ClusterResponse { cluster: req.cluster, response },
                metrics: Option::None,
                usage: Option::None,
            };
            proof {
                assert(r@ =~~= report_of(req@, ev@, org_id@, stream_type, session_id@));
            }
            r
        },
    }
}

/// Runs the whole batch: settles sub-query `i` of `queries` against
/// completion `i` of `events`, in input order. Each completion must come
/// from the execution path the sub-query's sentinel selects: a local one
/// exactly where the target url is empty. The output always has one
/// report per input, at the input's position, whatever mixture of success
/// and failure the completions hold.
pub fn execute(
    queries: Vec<ClusterRequest>,
    events: Vec<SubQueryEvent>,
    org_id: &String,
    stream_type: StreamType,
    session_id: &String,
) -> (reports: Vec<SubQueryReport>)
    requires
        queries@.len() == events@.len(),
        forall|i: int|
            0 <= i < queries@.len() ==> ((#[trigger] events@[i]@) is Local <==> queries@[i]@.cluster.url.len()
                == 0),
    ensures
        reports@.len() == queries@.len(),
        forall|i: int|
            0 <= i < queries@.len() ==> #[trigger] reports@[i]@ == report_of(
                queries@[i]@,
                events@[i]@,
                org_id@,
                stream_type,
                session_id@,
            ),
{
    let ghost qs = queries@;
    let ghost evs = events@;
    let mut remaining_queries = queries;
    let mut remaining_events = events;
    let mut reports: Vec<SubQueryReport> = Vec::new();
    while remaining_queries.len() > 0
        invariant
            evs.len() == qs.len(),
            reports@.len() + remaining_queries@.len() == qs.len(),
            remaining_queries@ =~= qs.skip(reports@.len() as int),
            remaining_events@ =~= evs.skip(reports@.len() as int),
            forall|k: int|
                0 <= k < reports@.len() ==> #[trigger] reports@[k]@ == report_of(
                    qs[k]@,
                    evs[k]@,
                    org_id@,
                    stream_type,
                    session_id@,
                ),
        decreases remaining_queries@.len(),
    {
        let ghost i = reports@.len() as int;
        let q = remaining_queries.remove(0);
        let e = remaining_events.remove(0);
        proof {
            assert(q == qs[i]);
            assert(e == evs[i]);
            assert(remaining_queries@ =~= qs.skip(i + 1));
            assert(remaining_events@ =~= evs.skip(i + 1));
        }
        let report = settle(q, e, org_id, stream_type, session_id);
        reports.push(report);
    }
    reports
}

/// Assembles the federated result: the ordered pass-through from settled
/// reports to per-cluster response entries. The seam where aggregation
/// policy would evolve; today it keeps position `i` at position `i`.
pub fn assemble(reports: Vec<SubQueryReport>) -> (out: Vec<ClusterResponse>)
    ensures
        out@.len() == reports@.len(),
        forall|i: int|
            0 <= i < reports@.len() ==> #[trigger] out@[i]@ == reports@[i]@.result,
{
    let ghost rs = reports@;
    let mut remaining = reports;
    let mut out: Vec<ClusterResponse> = Vec::new();
    while remaining.len() > 0
        invariant
            out@.len() + remaining@.len() == rs.len(),
            remaining@ =~= rs.skip(out@.len() as int),
            forall|k: int| 0 <= k < out@.len() ==> #[trigger] out@[k]@ == rs[k]@.result,
        decreases remaining@.len(),
    {
        let ghost i = out@.len() as int;
        let report = remaining.remove(0);
        proof {
            assert(report == rs[i]);
            assert(remaining@ =~= rs.skip(i + 1));
        }
        out.push(report.result);
    }
    out
}

/// Blanks the credential of every entry before the response leaves the
/// process: urls and responses stay as they were, each `auth` becomes
/// empty.
pub fn redact_credentials(results: Vec<ClusterResponse>) -> (out: Vec<ClusterResponse>)
    ensures
        out@.len() == results@.len(),
        forall|i: int|
            0 <= i < results@.len() ==> {
                &&& (#[trigger] out@[i]@).cluster.url == results@[i]@.cluster.url
                &&& out@[i]@.cluster.auth.len() == 0
                &&& out@[i]@.response == results@[i]@.response
            },
{
    let ghost rs = results@;
    let mut remaining = results;
    let mut out: Vec<ClusterResponse> = Vec::new();
    while remaining.len() > 0
        invariant
            out@.len() + remaining@.len() == rs.len(),
            remaining@ =~= rs.skip(out@.len() as int),
            forall|k: int|
                0 <= k < out@.len() ==> {
                    &&& (#[trigger] out@[k]@).cluster.url == rs[k]@.cluster.url
                    &&& out@[k]@.cluster.auth.len() == 0
                    &&& out@[k]@.response == rs[k]@.response
                },
        decreases remaining@.len(),
    {
        let ghost i = out@.len() as int;
        let entry = remaining.remove(0);
        proof {
            assert(entry == rs[i]);
            assert(remaining@ =~= rs.skip(i + 1));
        }
        let cluster = entry.cluster.redacted();
        out.push(ClusterResponse { cluster, response: entry.response });
    }
    out
}

/// The authenticated request one remote dispatch sends: the peer's url,
/// the two headers, and the serialized payload.
pub struct RemoteDispatch {
    pub url: String,
    pub headers: Vec<(String, String)>,
    pub body: String,
}

/// Builds the remote dispatch for one sub-query: POST to the target's
/// url, the target's credential as the authorization header, a JSON
/// content type, and the serialized payload as the body.
pub fn build_remote_dispatch(cluster: &Cluster, body: String) -> (d: RemoteDispatch)
    ensures
        d.url@ == cluster@.url,
        d.body@ == body@,
        d.headers@.len() == 2,
        d.headers@[0].0@ == "Authorization"@,
        d.headers@[0].1@ == cluster@.auth,
        d.headers@[1].0@ == "Content-type"@,
        d.headers@[1].1@ == "application/json"@,
{
    let mut headers: Vec<(String, String)> = Vec::new();
    headers.push((String::from_str("Authorization"), cluster.auth.clone()));
    headers.push((String::from_str("Content-type"), String::from_str("application/json")));
    RemoteDispatch { url: cluster.url.clone(), headers, body }
}

/// What becomes of an incoming federated request before any sub-query
/// runs: rejected whole, or admitted for dispatch under a stream type.
pub enum HandlerDecision {
    /// The request is structurally invalid; nothing is dispatched and
    /// nothing is recorded.
    Reject { status: u16, message: String },
    /// The batch may run, scoped to this stream type.
    Dispatch { stream_type: StreamType },
}

/// Admits or rejects a federated request: an unrecognized stream-type
/// selector or a body that did not parse is the caller's error, answered
/// with status 400 before any sub-query is executed or recorded — the
/// only error that ever crosses the request boundary. The stream-type
/// selector is judged first.
pub fn admit_request(
    stream_type_param: Option<&String>,
    body_parse_error: Option<String>,
) -> (d: HandlerDecision)
    ensures
        match d {
            HandlerDecision::Reject { status, message } => {
                &&& status == 400
                &&& if stream_type_of(view_param(stream_type_param)) is None {
                    message@ == "unrecognized stream type"@
                } else {
                    body_parse_error matches Option::Some(e) && message@ == e@
                }
            },
            HandlerDecision::Dispatch { stream_type } => {
                &&& body_parse_error is None
                &&& stream_type_of(view_param(stream_type_param)) == Option::Some(stream_type)
            },
        },
{
    match parse_stream_type(stream_type_param) {
        Err(message) => HandlerDecision::Reject { status: 400, message },
        Ok(stream_type) => match body_parse_error {
            Option::Some(message) => HandlerDecision::Reject { status: 400, message },
            Option::None => HandlerDecision::Dispatch { stream_type },
        },
    }
}

/// True of a completion that failed: a local engine error, a remote
/// transport failure, or a remote body that did not parse.
pub open spec fn is_failure(ev: SubQueryEventView) -> bool {
    match ev {
        SubQueryEventView::Local { outcome, .. } => !(outcome is Succeeded),
        SubQueryEventView::Remote { outcome } => !(outcome is Parsed),
    }
}

/// The description a failed completion carries.
pub open spec fn failure_description(ev: SubQueryEventView) -> Seq<char> {
    match ev {
        SubQueryEventView::Local { outcome: LocalOutcomeView::Failed(d), .. } => d,
        SubQueryEventView::Remote { outcome: RemoteOutcomeView::BodyMalformed(d) } => d,
        SubQueryEventView::Remote { outcome: RemoteOutcomeView::TransportFailed(d) } => d,
        _ => Seq::empty(),
    }
}

/// The cluster field of result `i` always equals the cluster field of
/// input `i`: every settled batch attributes each entry to its
/// originating target, whatever its completion held.
pub proof fn lemma_cluster_attribution(
    queries: Seq<ClusterRequestView>,
    events: Seq<SubQueryEventView>,
    reports: Seq<SubQueryReportView>,
    org_id: Seq<char>,
    stream_type: StreamType,
    session_id: Seq<char>,
)
    requires
        reports.len() == queries.len(),
        events.len() == queries.len(),
        forall|i: int|
            0 <= i < queries.len() ==> #[trigger] reports[i] == report_of(
                queries[i],
                events[i],
                org_id,
                stream_type,
                session_id,
            ),
    ensures
        forall|i: int|
            0 <= i < queries.len() ==> (#[trigger] reports[i]).result.cluster == queries[i].cluster,
{
}

/// Failure isolation: where sub-query `f` fails and every other
/// completion succeeds, the settled batch still holds one entry per
/// input; entry `f` is the degraded response embedding the failure's
/// description, and every other entry carries its own successful payload
/// untouched by the failure.
pub proof fn lemma_failure_isolation(
    queries: Seq<ClusterRequestView>,
    events: Seq<SubQueryEventView>,
    reports: Seq<SubQueryReportView>,
    org_id: Seq<char>,
    stream_type: StreamType,
    session_id: Seq<char>,
    f: int,
)
    requires
        reports.len() == queries.len(),
        events.len() == queries.len(),
        forall|i: int|
            0 <= i < queries.len() ==> #[trigger] reports[i] == report_of(
                queries[i],
                events[i],
                org_id,
                stream_type,
                session_id,
            ),
        0 <= f < queries.len(),
        is_failure(events[f]),
        forall|j: int| 0 <= j < queries.len() && j != f ==> !is_failure(#[trigger] events[j]),
    ensures
        reports.len() == queries.len(),
        reports[f].result.response == degraded_response(failure_description(events[f])),
        forall|j: int|
            0 <= j < queries.len() && j != f ==> (#[trigger] reports[j]).result.response
                == response_of(events[j], session_id),
{
    assert forall|j: int|
        0 <= j < queries.len() && j != f implies (#[trigger] reports[j]).result.response
        == response_of(events[j], session_id) by {
        assert(reports[j] == report_of(queries[j], events[j], org_id, stream_type, session_id));
    }
}

/// Relies on `uuid::Uuid::new_v4` and its `Display` form: a fresh random
/// v4 UUID rendered hyphenated, 36 characters long.
#[verifier::external_body]
fn new_uuid_string() -> (r: String)
    ensures
        r@.len() == 36,
{
    uuid::Uuid::new_v4().to_string()
}

/// A fresh correlation id for one top-level request, under which the
/// local engine groups that request's resource usage.
pub fn fresh_correlation_id() -> (r: String)
    ensures
        r@.len() == 36,
{
    new_uuid_string()
}

} // verus!
