use fedsearch::orchestrator::{
    admit_request, assemble, build_remote_dispatch, execute, fresh_correlation_id,
    redact_credentials, HandlerDecision, LocalOutcome, RemoteOutcome, SubQueryEvent,
};
use fedsearch::proxy::{Cluster, ClusterRequest, FedSearchRequest};
use fedsearch::search::{SearchRequest, SearchResponse};
use fedsearch::stream::{parse_stream_type, StreamType};

fn cluster(url: &str, auth: &str) -> Cluster {
    Cluster {
        url: url.to_string(),
        auth: auth.to_string(),
    }
}

fn request(url: &str, auth: &str, sql: &str) -> ClusterRequest {
    ClusterRequest {
        cluster: cluster(url, auth),
        search_request: SearchRequest {
            sql: sql.to_string(),
            query_fn: None,
        },
    }
}

fn response_with_hits(n: usize, scan_size: usize) -> SearchResponse {
    let mut res = SearchResponse::default();
    let mut hits = Vec::new();
    for i in 0..n {
        hits.push(format!("row-{}", i));
    }
    res.hits = hits;
    res.scan_size = scan_size;
    res
}

#[test]
fn test_local_success_and_unreachable_peer() {
    let queries = vec![
        request("", "", "select * from logs"),
        request("http://peer1", "tok", "select * from logs"),
    ];
    let events = vec![
        SubQueryEvent::Local {
            outcome: LocalOutcome::Succeeded(response_with_hits(10, 512)),
            elapsed_ms: 12,
            wait_ms: 3,
        },
        SubQueryEvent::Remote {
            outcome: RemoteOutcome::TransportFailed("connection refused".to_string()),
        },
    ];
    let org = "org1".to_string();
    let sid = fresh_correlation_id();
    let reports = execute(queries, events, &org, StreamType::Logs, &sid);
    assert_eq!(reports.len(), 2);

    let local = &reports[0];
    assert_eq!(local.result.response.hits.len(), 10);
    assert_eq!(local.result.response.function_error, "");
    assert_eq!(local.result.response.session_id, sid);
    assert_eq!(local.result.response.took, 12);
    assert_eq!(local.result.response.took_wait, 3);
    let metrics = local.metrics.as_ref().unwrap();
    assert_eq!(metrics.status, 200);
    assert_eq!(metrics.endpoint, "/api/org/_search");
    assert_eq!(metrics.org_id, "org1");
    let usage = local.usage.as_ref().unwrap();
    assert_eq!(usage.records, 10);
    assert_eq!(usage.size, 512);
    assert_eq!(usage.request_body, "select * from logs");
    assert_eq!(usage.num_fn, 0);

    let remote = &reports[1];
    assert_eq!(remote.result.cluster.url, "http://peer1");
    assert!(!remote.result.response.function_error.is_empty());
    assert_eq!(remote.result.response.function_error, "connection refused");
    assert_eq!(remote.result.response.hits.len(), 0);
    assert!(remote.metrics.is_none());
    assert!(remote.usage.is_none());

    let out = assemble(reports);
    assert_eq!(out.len(), 2);
    assert_eq!(out[0].cluster.url, "");
    assert_eq!(out[1].cluster.url, "http://peer1");
}

#[test]
fn test_failure_isolation_middle_entry() {
    let queries = vec![
        request("", "", "select 1"),
        request("http://peer2", "t2", "select 2"),
        request("http://peer3", "t3", "select 3"),
    ];
    let events = vec![
        SubQueryEvent::Local {
            outcome: LocalOutcome::Succeeded(response_with_hits(2, 10)),
            elapsed_ms: 5,
            wait_ms: 1,
        },
        SubQueryEvent::Remote {
            outcome: RemoteOutcome::BodyMalformed("expected value at line 1".to_string()),
        },
        SubQueryEvent::Remote {
            outcome: RemoteOutcome::Parsed(response_with_hits(7, 70)),
        },
    ];
    let org = "org1".to_string();
    let sid = fresh_correlation_id();
    let reports = execute(queries, events, &org, StreamType::Logs, &sid);
    assert_eq!(reports.len(), 3);
    assert_eq!(reports[0].result.response.hits.len(), 2);
    assert_eq!(reports[0].result.response.function_error, "");
    assert_eq!(
        reports[1].result.response.function_error,
        "expected value at line 1"
    );
    assert_eq!(reports[1].result.response.hits.len(), 0);
    assert_eq!(reports[2].result.response.hits.len(), 7);
    assert_eq!(reports[2].result.response.function_error, "");
}

#[test]
fn test_cluster_attribution_echoed_byte_for_byte() {
    let queries = vec![
        request("http://a", "auth-a", "q1"),
        request("", "ignored", "q2"),
    ];
    let events = vec![
        SubQueryEvent::Remote {
            outcome: RemoteOutcome::TransportFailed("timeout".to_string()),
        },
        SubQueryEvent::Local {
            outcome: LocalOutcome::Failed("engine busy".to_string()),
            elapsed_ms: 9,
            wait_ms: 2,
        },
    ];
    let org = "o".to_string();
    let sid = "s".to_string();
    let reports = execute(queries, events, &org, StreamType::Logs, &sid);
    assert_eq!(reports[0].result.cluster.url, "http://a");
    assert_eq!(reports[0].result.cluster.auth, "auth-a");
    assert_eq!(reports[1].result.cluster.url, "");
    assert_eq!(reports[1].result.cluster.auth, "ignored");
}

#[test]
fn test_local_failure_counts_error_status() {
    let queries = vec![request("", "", "select broken")];
    let events = vec![SubQueryEvent::Local {
        outcome: LocalOutcome::Failed("table not found".to_string()),
        elapsed_ms: 4,
        wait_ms: 1,
    }];
    let org = "org2".to_string();
    let sid = "sess".to_string();
    let reports = execute(queries, events, &org, StreamType::Metrics, &sid);
    assert_eq!(reports.len(), 1);
    assert_eq!(reports[0].result.response.function_error, "table not found");
    let metrics = reports[0].metrics.as_ref().unwrap();
    assert_eq!(metrics.status, 500);
    assert_eq!(metrics.latency_ms, 4);
    assert!(reports[0].usage.is_none());
}

#[test]
fn test_stream_type_parsing() {
    assert_eq!(parse_stream_type(None).unwrap(), StreamType::Logs);
    assert_eq!(
        parse_stream_type(Some(&"logs".to_string())).unwrap(),
        StreamType::Logs
    );
    assert_eq!(
        parse_stream_type(Some(&"metrics".to_string())).unwrap(),
        StreamType::Metrics
    );
    assert_eq!(
        parse_stream_type(Some(&"traces".to_string())).unwrap(),
        StreamType::Traces
    );
    assert_eq!(
        parse_stream_type(Some(&"enrichment_tables".to_string())).unwrap(),
        StreamType::EnrichmentTables
    );
    let err = parse_stream_type(Some(&"bogus".to_string())).unwrap_err();
    assert_eq!(err, "unrecognized stream type");
}

#[test]
fn test_remote_dispatch_carries_credential_and_content_type() {
    let c = cluster("http://peer9", "Basic abc");
    let d = build_remote_dispatch(&c, "{\"queries\":[]}".to_string());
    assert_eq!(d.url, "http://peer9");
    assert_eq!(d.body, "{\"queries\":[]}");
    assert_eq!(d.headers.len(), 2);
    assert_eq!(d.headers[0].0, "Authorization");
    assert_eq!(d.headers[0].1, "Basic abc");
    assert_eq!(d.headers[1].0, "Content-type");
    assert_eq!(d.headers[1].1, "application/json");
}

#[test]
fn test_redact_credentials_blanks_auth_only() {
    let queries = vec![request("http://a", "secret", "q")];
    let events = vec![SubQueryEvent::Remote {
        outcome: RemoteOutcome::Parsed(response_with_hits(3, 30)),
    }];
    let org = "o".to_string();
    let sid = "s".to_string();
    let out = assemble(execute(queries, events, &org, StreamType::Logs, &sid));
    let redacted = redact_credentials(out);
    assert_eq!(redacted.len(), 1);
    assert_eq!(redacted[0].cluster.url, "http://a");
    assert_eq!(redacted[0].cluster.auth, "");
    assert_eq!(redacted[0].response.hits.len(), 3);
}

#[test]
fn test_admission_rejects_malformed_body_before_dispatch() {
    match admit_request(None, Some("expected value at line 1 column 1".to_string())) {
        HandlerDecision::Reject { status, message } => {
            assert_eq!(status, 400);
            assert_eq!(message, "expected value at line 1 column 1");
        }
        HandlerDecision::Dispatch { .. } => panic!("a malformed body must be rejected"),
    }
    // the stream-type selector is judged first
    match admit_request(Some(&"bogus".to_string()), Some("broken".to_string())) {
        HandlerDecision::Reject { status, message } => {
            assert_eq!(status, 400);
            assert_eq!(message, "unrecognized stream type");
        }
        HandlerDecision::Dispatch { .. } => panic!("an unknown stream type must be rejected"),
    }
    match admit_request(Some(&"logs".to_string()), None) {
        HandlerDecision::Dispatch { stream_type } => assert_eq!(stream_type, StreamType::Logs),
        HandlerDecision::Reject { .. } => panic!("a well-formed request must be admitted"),
    }
}

#[test]
fn test_empty_batch_settles_to_empty_result() {
    let batch = FedSearchRequest { queries: Vec::new() };
    let org = "o".to_string();
    let sid = "s".to_string();
    let reports = execute(batch.queries, Vec::new(), &org, StreamType::Logs, &sid);
    assert_eq!(reports.len(), 0);
    let out = assemble(reports);
    assert_eq!(out.len(), 0);
}

#[test]
fn test_is_local_classification() {
    assert!(cluster("", "anything").is_local());
    assert!(!cluster("http://peer", "").is_local());
}

#[test]
fn test_correlation_id_shape() {
    let a = fresh_correlation_id();
    let b = fresh_correlation_id();
    assert_eq!(a.len(), 36);
    assert_eq!(b.len(), 36);
    assert_ne!(a, b);
}

#[test]
fn test_response_default_and_stamps() {
    let mut res = SearchResponse::default();
    assert_eq!(res.took, 0);
    assert_eq!(res.took_wait, 0);
    assert_eq!(res.hits.len(), 0);
    assert_eq!(res.scan_size, 0);
    assert_eq!(res.session_id, "");
    assert_eq!(res.function_error, "");
    res.set_session_id("abc".to_string());
    res.set_local_took(44, 11);
    assert_eq!(res.session_id, "abc");
    assert_eq!(res.took, 44);
    assert_eq!(res.took_wait, 11);
}
