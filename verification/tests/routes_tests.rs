use helix_gateway::error::{GatewayError, GrpcCode, GrpcStatus};
use helix_gateway::gateway::buffer::Buffer;
use helix_gateway::gateway::introspection::{
    DbQuery, EmbeddingConfig, Introspection, LocalEmbeddingConfig, ProviderConfig,
};
use helix_gateway::gateway::routes::{
    built_request, forwarded_request, next_drain_step, next_query_step, start_drain, DrainAction,
    DrainEvent, DrainPhase, QueryAction, QueryEvent, QueryState,
};
use helix_gateway::gateway::DbStatus;
use helix_gateway::proto::{QueryRequest, QueryResponse, RequestType};
use pbjson_types::Struct;

fn db_query(request_type: RequestType, embedded: Option<Vec<&str>>) -> DbQuery {
    DbQuery {
        request_type,
        parameters: Struct::default(),
        return_types: Struct::default(),
        embedding_config: embedded.map(|vars| EmbeddingConfig {
            provider_config: ProviderConfig::Local(LocalEmbeddingConfig {
                url: "http://localhost:8699/embed".to_string(),
            }),
            embedded_variables: vars.into_iter().map(|v| v.to_string()).collect(),
        }),
    }
}

fn introspection() -> Introspection {
    Introspection {
        queries: vec![
            ("get_users".to_string(), db_query(RequestType::Read, None)),
            ("create_user".to_string(), db_query(RequestType::Write, None)),
            (
                "semantic_search".to_string(),
                db_query(RequestType::Read, Some(vec!["query_text"])),
            ),
        ],
        schema: vec![],
    }
}

fn received(query: &str) -> QueryState<'static> {
    QueryState::Received {
        query: query.to_string(),
    }
}

fn ok_response() -> QueryResponse {
    QueryResponse {
        data: b"Query result for: get_users".to_vec(),
        status: 200,
    }
}

#[test]
fn test_rate_limited_request_is_refused() {
    let intro = introspection();
    let step = next_query_step(received("get_users"), QueryEvent::Admission { rate_limited: true }, &intro);
    assert!(matches!(step.state, QueryState::Finished));
    assert!(matches!(step.action, QueryAction::Reply(Err(GatewayError::RateLimited))));
    assert!(step.report.is_none());
}

#[test]
fn test_unknown_query_returns_404() {
    let intro = introspection();
    let step = next_query_step(received("unknown_query"), QueryEvent::Admission { rate_limited: false }, &intro);
    match step.action {
        QueryAction::Reply(Err(e)) => {
            assert!(matches!(e, GatewayError::QueryNotFound));
            assert_eq!(e.status_code(), 404);
        }
        _ => panic!("expected a 404 reply"),
    }
}

#[test]
fn test_query_flow_success() {
    let intro = introspection();
    let step = next_query_step(received("create_user"), QueryEvent::Admission { rate_limited: false }, &intro);
    assert!(matches!(step.action, QueryAction::ParseBody));
    let step = next_query_step(step.state, QueryEvent::Parsed(Ok((Struct::default(), vec![]))), &intro);
    assert!(matches!(step.action, QueryAction::CallBackend));
    let request = built_request(&step.state).unwrap();
    assert_eq!(request.query, "create_user");
    assert_eq!(request.request_type, 1);
    assert!(request.parameters.is_some());
    assert!(request.embeddings.is_none());
    let step = next_query_step(step.state, QueryEvent::BackendReplied(Ok(ok_response())), &intro);
    assert_eq!(step.report, Some(DbStatus::Healthy));
    match step.action {
        QueryAction::Reply(Ok(r)) => assert_eq!(r, ok_response()),
        _ => panic!("expected the backend's answer"),
    }
}

#[test]
fn test_query_endpoint_with_invalid_json() {
    let intro = introspection();
    let step = next_query_step(received("get_users"), QueryEvent::Admission { rate_limited: false }, &intro);
    let err = GatewayError::ParseError("invalid json".to_string());
    let step = next_query_step(step.state, QueryEvent::Parsed(Err(err)), &intro);
    match step.action {
        QueryAction::Reply(Err(e)) => assert_eq!(e.status_code(), 400),
        _ => panic!("expected a 400 reply"),
    }
}

#[test]
fn test_embedding_flow() {
    let intro = introspection();
    let step = next_query_step(received("semantic_search"), QueryEvent::Admission { rate_limited: false }, &intro);
    let fields = vec![
        ("query_text".to_string(), Some("space".to_string())),
        ("limit".to_string(), None),
    ];
    let step = next_query_step(step.state, QueryEvent::Parsed(Ok((Struct::default(), fields))), &intro);
    match &step.action {
        QueryAction::Embed { texts, .. } => {
            assert_eq!(texts, &vec![("query_text".to_string(), "space".to_string())])
        }
        _ => panic!("expected embeddings to be computed"),
    }
    let step = next_query_step(step.state, QueryEvent::Embedded(Ok(Struct::default())), &intro);
    assert!(matches!(step.action, QueryAction::CallBackend));
    assert!(built_request(&step.state).unwrap().embeddings.is_some());
}

#[test]
fn test_embedding_skipped_without_string_parameters() {
    let intro = introspection();
    let step = next_query_step(received("semantic_search"), QueryEvent::Admission { rate_limited: false }, &intro);
    let fields = vec![("query_text".to_string(), None)];
    let step = next_query_step(step.state, QueryEvent::Parsed(Ok((Struct::default(), fields))), &intro);
    assert!(matches!(step.action, QueryAction::CallBackend));
    assert!(built_request(&step.state).unwrap().embeddings.is_none());
}

#[test]
fn test_embedding_error_is_answered() {
    let intro = introspection();
    let step = next_query_step(received("semantic_search"), QueryEvent::Admission { rate_limited: false }, &intro);
    let fields = vec![("query_text".to_string(), Some("x".to_string()))];
    let step = next_query_step(step.state, QueryEvent::Parsed(Ok((Struct::default(), fields))), &intro);
    let step = next_query_step(
        step.state,
        QueryEvent::Embedded(Err(GatewayError::EmbeddingError("no vector".to_string()))),
        &intro,
    );
    assert!(matches!(step.action, QueryAction::Reply(Err(GatewayError::EmbeddingError(_)))));
}

fn calling(intro: &Introspection) -> QueryState<'_> {
    let step = next_query_step(received("get_users"), QueryEvent::Admission { rate_limited: false }, intro);
    next_query_step(step.state, QueryEvent::Parsed(Ok((Struct::default(), vec![]))), intro).state
}

#[test]
fn test_query_endpoint_backend_error() {
    let intro = introspection();
    let status = GrpcStatus::new(GrpcCode::Internal, "database error".to_string());
    let step = next_query_step(calling(&intro), QueryEvent::BackendReplied(Err(status)), &intro);
    assert!(step.report.is_none());
    match step.action {
        QueryAction::Reply(Err(e)) => {
            assert!(matches!(e, GatewayError::BackendUnavailable));
            assert_ne!(e.status_code(), 200);
        }
        _ => panic!("expected an error reply"),
    }
}

#[test]
fn test_unavailable_backend_buffers_request() {
    let intro = introspection();
    let status = GrpcStatus::new(GrpcCode::Unavailable, "database unavailable".to_string());
    let step = next_query_step(calling(&intro), QueryEvent::BackendReplied(Err(status)), &intro);
    assert_eq!(step.report, Some(DbStatus::Unhealthy));
    assert!(matches!(step.state, QueryState::Buffered));
    match step.action {
        QueryAction::BufferRequest(r) => assert_eq!(r.query, "get_users"),
        _ => panic!("expected the request to be buffered"),
    }
    let step = next_query_step(step.state, QueryEvent::BufferReplied(Ok(ok_response())), &intro);
    assert!(matches!(step.action, QueryAction::Reply(Ok(_))));
    assert!(step.report.is_none());
}

#[test]
fn test_deadline_exceeded_buffers_request() {
    let intro = introspection();
    let status = GrpcStatus::new(GrpcCode::DeadlineExceeded, "slow".to_string());
    let step = next_query_step(calling(&intro), QueryEvent::BackendReplied(Err(status)), &intro);
    assert!(matches!(step.action, QueryAction::BufferRequest(_)));
}

fn make_test_request(query: &str) -> QueryRequest {
    QueryRequest {
        request_type: 0,
        query: query.to_string(),
        parameters: None,
        embeddings: None,
    }
}

#[test]
fn test_process_empty_buffer() {
    let mut buffer = Buffer::new();
    let step = next_drain_step(start_drain(), DrainEvent::Dequeued(buffer.dequeue().map(|r| (r, false, 0))), 30_000_000_000);
    assert!(matches!(step.action, DrainAction::Finish(0)));
    assert!(matches!(step.state.phase, DrainPhase::Done));
}

#[test]
fn test_process_buffer_skips_cancelled() {
    let mut buffer = Buffer::new();
    let rx = buffer.enqueue(make_test_request("test")).unwrap();
    drop(rx);
    let req = buffer.dequeue().unwrap();
    let cancelled = req.is_cancelled();
    let step = next_drain_step(start_drain(), DrainEvent::Dequeued(Some((req, cancelled, 0))), 30_000_000_000);
    assert!(matches!(step.action, DrainAction::Skip));
    let step = next_drain_step(step.state, DrainEvent::Dequeued(None), 30_000_000_000);
    assert!(matches!(step.action, DrainAction::Finish(0)));
}

#[test]
fn test_process_buffer_timeout_handling() {
    let mut buffer = Buffer::new();
    let rx = buffer.enqueue(make_test_request("test")).unwrap();
    let req = buffer.dequeue().unwrap();
    let step = next_drain_step(start_drain(), DrainEvent::Dequeued(Some((req, false, 1))), 0);
    match step.action {
        DrainAction::Respond(req, answer) => {
            req.respond(answer).unwrap();
        }
        _ => panic!("expected a timeout answer"),
    }
    assert_eq!(step.state.processed, 0);
    let inner = rx.blocking_recv().unwrap();
    assert!(matches!(inner, Err(GatewayError::RequestTimeout)));
}

#[test]
fn test_process_buffer_forwards_and_counts() {
    let mut buffer = Buffer::new();
    let rx = buffer.enqueue(make_test_request("test")).unwrap();
    let req = buffer.dequeue().unwrap();
    let step = next_drain_step(start_drain(), DrainEvent::Dequeued(Some((req, false, 5))), 10);
    assert!(matches!(step.action, DrainAction::CallBackend));
    assert_eq!(forwarded_request(&step.state).unwrap().request().query, "test");
    let step = next_drain_step(step.state, DrainEvent::BackendReplied(Ok(ok_response())), 10);
    assert_eq!(step.report, Some(DbStatus::Healthy));
    assert_eq!(step.state.processed, 1);
    match step.action {
        DrainAction::Respond(req, answer) => req.respond(answer).unwrap(),
        _ => panic!("expected the backend's answer to be passed on"),
    }
    assert_eq!(rx.blocking_recv().unwrap().unwrap(), ok_response());
    let step = next_drain_step(step.state, DrainEvent::Dequeued(None), 10);
    assert!(matches!(step.action, DrainAction::Finish(1)));
}

#[test]
fn test_process_buffer_backend_failures() {
    let mut buffer = Buffer::new();
    let _rx1 = buffer.enqueue(make_test_request("a")).unwrap();
    let _rx2 = buffer.enqueue(make_test_request("b")).unwrap();
    let req = buffer.dequeue().unwrap();
    let step = next_drain_step(start_drain(), DrainEvent::Dequeued(Some((req, false, 0))), 10);
    let down = GrpcStatus::new(GrpcCode::Unavailable, "down".to_string());
    let step = next_drain_step(step.state, DrainEvent::BackendReplied(Err(down)), 10);
    assert_eq!(step.report, Some(DbStatus::Unhealthy));
    assert!(matches!(step.action, DrainAction::Requeue(_)));
    let req = buffer.dequeue().unwrap();
    let step = next_drain_step(step.state, DrainEvent::Dequeued(Some((req, false, 0))), 10);
    let bad = GrpcStatus::new(GrpcCode::Internal, "bad".to_string());
    let step = next_drain_step(step.state, DrainEvent::BackendReplied(Err(bad)), 10);
    assert!(step.report.is_none());
    assert!(matches!(step.action, DrainAction::Respond(_, Err(GatewayError::BackendUnavailable))));
    assert_eq!(step.state.processed, 2);
}

#[test]
fn test_process_buffer_multiple_cancelled() {
    let mut buffer = Buffer::new();
    for i in 0..5 {
        let rx = buffer.enqueue(make_test_request(&format!("test_{}", i))).unwrap();
        drop(rx);
    }
    assert_eq!(buffer.len(), 5);
    let mut state = start_drain();
    loop {
        let taken = buffer.dequeue().map(|r| {
            let c = r.is_cancelled();
            (r, c, 0)
        });
        let step = next_drain_step(state, DrainEvent::Dequeued(taken), 30_000_000_000);
        state = step.state;
        if let DrainAction::Finish(n) = step.action {
            assert_eq!(n, 0);
            break;
        }
        assert!(matches!(step.action, DrainAction::Skip));
    }
}
