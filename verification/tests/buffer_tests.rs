use helix_gateway::error::GatewayError;
use helix_gateway::gateway::buffer::{gateway_buffer, Buffer};
use helix_gateway::gateway::{should_drain, DbStatus};
use helix_gateway::proto::{QueryRequest, QueryResponse};
use std::time::Duration;

fn make_test_request(query: &str) -> QueryRequest {
    QueryRequest {
        request_type: 0,
        query: query.to_string(),
        parameters: None,
        embeddings: None,
    }
}

#[test]
fn test_enqueue_and_respond() {
    let mut buffer = Buffer::new();
    let rx = buffer.enqueue(make_test_request("test")).unwrap();

    let req = buffer.dequeue().unwrap();
    let response = QueryResponse {
        data: vec![1, 2, 3],
        status: 200,
    };
    req.respond(Ok(response)).unwrap();

    let received = rx.blocking_recv().unwrap().unwrap();
    assert_eq!(received.status, 200);
    assert_eq!(received.data, vec![1, 2, 3]);
}

#[test]
fn test_is_cancelled_when_receiver_dropped() {
    let mut buffer = Buffer::new();
    let rx = buffer.enqueue(make_test_request("test")).unwrap();
    drop(rx);

    let req = buffer.dequeue().unwrap();
    assert!(req.is_cancelled());
}

#[test]
fn test_not_cancelled_while_receiver_waits() {
    let mut buffer = Buffer::new();
    let _rx = buffer.enqueue(make_test_request("test")).unwrap();
    let req = buffer.dequeue().unwrap();
    assert!(!req.is_cancelled());
}

#[test]
fn test_respond_to_dropped_receiver_gives_answer_back() {
    let mut buffer = Buffer::new();
    let rx = buffer.enqueue(make_test_request("test")).unwrap();
    drop(rx);
    let req = buffer.dequeue().unwrap();
    let back = req.respond(Err(GatewayError::RequestTimeout)).unwrap_err();
    assert!(matches!(back, Err(GatewayError::RequestTimeout)));
}

#[test]
fn test_buffer_full_error() {
    let mut buffer = Buffer::new().max_size(1);
    let _rx1 = buffer.enqueue(make_test_request("first")).unwrap();

    let result = buffer.enqueue(make_test_request("second"));
    assert!(result.is_err());
}

#[test]
fn test_len_tracking() {
    let mut buffer = Buffer::new();
    assert_eq!(buffer.len(), 0);
    assert!(buffer.is_empty());

    let _rx1 = buffer.enqueue(make_test_request("first")).unwrap();
    assert_eq!(buffer.len(), 1);

    let _rx2 = buffer.enqueue(make_test_request("second")).unwrap();
    assert_eq!(buffer.len(), 2);
}

#[test]
fn test_error_response() {
    let mut buffer = Buffer::new();
    let rx = buffer.enqueue(make_test_request("test")).unwrap();

    let req = buffer.dequeue().unwrap();
    req.respond(Err(GatewayError::BackendUnavailable)).unwrap();

    let received = rx.blocking_recv().unwrap();
    assert!(received.is_err());
}

#[test]
fn test_lifo_order() {
    let mut buffer = Buffer::new();
    let _rx_a = buffer.enqueue(make_test_request("A")).unwrap();
    let _rx_b = buffer.enqueue(make_test_request("B")).unwrap();

    // Stack is LIFO, so B should come out first
    let first = buffer.dequeue().unwrap();
    assert_eq!(first.request().query, "B");

    let second = buffer.dequeue().unwrap();
    assert_eq!(second.request().query, "A");
}

#[test]
fn test_each_answer_reaches_its_own_receiver() {
    let mut buffer = Buffer::new();
    let rx_a = buffer.enqueue(make_test_request("A")).unwrap();
    let rx_b = buffer.enqueue(make_test_request("B")).unwrap();

    let first = buffer.dequeue().unwrap();
    first
        .respond(Ok(QueryResponse { data: vec![2], status: 200 }))
        .unwrap();
    let second = buffer.dequeue().unwrap();
    second.respond(Err(GatewayError::RequestTimeout)).unwrap();

    assert_eq!(rx_b.blocking_recv().unwrap().unwrap().data, vec![2]);
    assert!(matches!(
        rx_a.blocking_recv().unwrap(),
        Err(GatewayError::RequestTimeout)
    ));
}

#[test]
fn test_request_accessor() {
    let mut buffer = Buffer::new();
    let _rx = buffer.enqueue(make_test_request("my_query")).unwrap();

    let req = buffer.dequeue().unwrap();
    assert_eq!(req.request().query, "my_query");
}

#[test]
fn test_dequeue_empty_buffer() {
    let mut buffer = Buffer::new();
    assert!(buffer.dequeue().is_none());
}

#[test]
fn test_max_duration_builder() {
    let buffer = Buffer::new().max_duration(Duration::from_secs(5));
    assert_eq!(buffer.max_duration_limit(), Some(Duration::from_secs(5)));
}

#[test]
fn test_buffer_at_exact_capacity() {
    let mut buffer = Buffer::new().max_size(2);

    let _rx1 = buffer.enqueue(make_test_request("first")).unwrap();
    let _rx2 = buffer.enqueue(make_test_request("second")).unwrap();

    // At capacity, next should fail
    let result = buffer.enqueue(make_test_request("third"));
    assert!(matches!(result, Err(GatewayError::BufferFull)));
}

#[test]
fn test_full_buffer_is_left_unchanged() {
    let mut buffer = Buffer::new().max_size(1);
    let _rx1 = buffer.enqueue(make_test_request("kept")).unwrap();
    assert!(buffer.enqueue(make_test_request("refused")).is_err());
    assert_eq!(buffer.len(), 1);
    assert_eq!(buffer.dequeue().unwrap().request().query, "kept");
    assert!(buffer.is_empty());
}

#[test]
fn test_dequeue_frees_room() {
    let mut buffer = Buffer::new().max_size(1);
    let _rx1 = buffer.enqueue(make_test_request("first")).unwrap();
    let _ = buffer.dequeue().unwrap();
    assert!(buffer.enqueue(make_test_request("second")).is_ok());
    assert_eq!(buffer.max_size_limit(), Some(1));
}

#[test]
fn test_default_buffer_is_empty_and_unbounded() {
    let mut buffer = Buffer::default();
    assert!(buffer.is_empty());
    assert_eq!(buffer.max_size_limit(), None);
    assert_eq!(buffer.max_duration_limit(), None);
    for i in 0..50 {
        assert!(buffer.enqueue(make_test_request(&format!("q{}", i))).is_ok());
    }
    assert_eq!(buffer.len(), 50);
}

#[test]
fn test_update_to_transitions() {
    let mut status = DbStatus::Healthy;
    assert!(status.update_to(DbStatus::Unhealthy));
    assert_eq!(status, DbStatus::Unhealthy);
    assert!(status.update_to(DbStatus::Healthy));
    assert_eq!(status, DbStatus::Healthy);
}

#[test]
fn test_update_to_idempotent() {
    let mut status = DbStatus::Healthy;
    assert!(!status.update_to(DbStatus::Healthy));
    assert_eq!(status, DbStatus::Healthy);
}

#[test]
fn test_db_status_default_and_drain() {
    assert_eq!(DbStatus::default(), DbStatus::Healthy);
    assert!(should_drain(DbStatus::Healthy));
    assert!(!should_drain(DbStatus::Unhealthy));
}

#[test]
fn test_gateway_buffer_limits() {
    let mut buffer = gateway_buffer();
    assert!(buffer.is_empty());
    assert_eq!(buffer.max_size_limit(), Some(1000));
    assert_eq!(buffer.max_duration_limit(), Some(Duration::from_millis(1000)));
    for i in 0..1000 {
        assert!(buffer.enqueue(make_test_request(&format!("q{}", i))).is_ok());
    }
    assert!(matches!(
        buffer.enqueue(make_test_request("overflow")),
        Err(GatewayError::BufferFull)
    ));
}
