use helix_gateway::db::router::{finish_query, route_kind, Handler, QueryInput, RouteKind, Router};
use helix_gateway::proto::QueryResponse;
use helix_gateway::db::DbService;
use helix_gateway::error::GrpcCode;
use helix_gateway::proto::{QueryRequest, RequestType};

fn request(request_type: i32, query: &str) -> QueryRequest {
    QueryRequest {
        request_type,
        query: query.to_string(),
        parameters: None,
        embeddings: None,
    }
}

fn handlers() -> Vec<Handler<u32>> {
    vec![
        Handler::new("test_read", 1),
        Handler::new("test_write", 2).is_write(),
        Handler::new("test_mcp", 3).is_mcp(),
        Handler::new("test_write_mcp", 4).is_write().is_mcp(),
        Handler::new("test_embed", 5).is_embedding(),
    ]
}

#[test]
fn test_handler_builders() {
    let h = Handler::new("x", 7u32);
    assert_eq!(h.name, "x");
    assert_eq!(h.func, 7);
    assert!(!h.is_write && !h.is_mcp && !h.is_embedding);
    let h = h.is_write().is_mcp().is_embedding();
    assert!(h.is_write && h.is_mcp && h.is_embedding);
    assert_eq!(h.name, "x");
}

#[test]
fn test_route_kinds() {
    assert_eq!(route_kind(false, false), RouteKind::Read);
    assert_eq!(route_kind(true, false), RouteKind::Write);
    assert_eq!(route_kind(false, true), RouteKind::Mcp);
    assert_eq!(route_kind(true, true), RouteKind::Write);
}

#[test]
fn test_router_tables() {
    let hs = handlers();
    let router = Router::from_handlers(&hs);
    assert_eq!(router.lookup(RequestType::Read, "test_read"), Some(0));
    assert_eq!(router.lookup(RequestType::Write, "test_write"), Some(1));
    assert_eq!(router.lookup(RequestType::Mcp, "test_mcp"), Some(2));
    assert_eq!(router.lookup(RequestType::Write, "test_write_mcp"), Some(3));
    assert_eq!(router.lookup(RequestType::Read, "test_embed"), Some(4));
    // each handler is only in its own table
    assert_eq!(router.lookup(RequestType::Read, "test_write"), None);
    assert_eq!(router.lookup(RequestType::Read, "test_mcp"), None);
    assert_eq!(router.lookup(RequestType::Mcp, "test_write_mcp"), None);
    assert_eq!(router.lookup(RequestType::Write, "test_read"), None);
    assert_eq!(router.lookup(RequestType::Read, "nonexistent_handler"), None);
}

#[test]
fn test_later_handler_replaces_earlier() {
    let hs = vec![
        Handler::new("dup", 1u32),
        Handler::new("dup", 2u32).is_write(),
        Handler::new("dup", 3u32),
    ];
    let router = Router::from_handlers(&hs);
    assert_eq!(router.lookup(RequestType::Read, "dup"), Some(2));
    assert_eq!(router.lookup(RequestType::Write, "dup"), Some(1));
    assert_eq!(router.lookup(RequestType::Mcp, "dup"), None);
}

#[derive(Default, Clone)]
struct TestDb;

type TestHandler = fn(QueryInput<TestDb>) -> Result<Vec<u8>, String>;

fn test_read_handler(input: QueryInput<TestDb>) -> Result<Vec<u8>, String> {
    Ok(format!("Read result for: {}", input.request.query).into_bytes())
}

fn test_write_handler(input: QueryInput<TestDb>) -> Result<Vec<u8>, String> {
    Ok(format!("Write completed for: {}", input.request.query).into_bytes())
}

fn test_mcp_handler(input: QueryInput<TestDb>) -> Result<Vec<u8>, String> {
    Ok(format!("MCP result for: {}", input.request.query).into_bytes())
}

fn test_error_handler(_input: QueryInput<TestDb>) -> Result<Vec<u8>, String> {
    Err("Handler error occurred".to_string())
}

fn test_service() -> DbService<TestDb, TestHandler> {
    DbService::new(
        TestDb::default(),
        vec![
            Handler::new("test_read", test_read_handler as TestHandler),
            Handler::new("test_write", test_write_handler as TestHandler).is_write(),
            Handler::new("test_mcp", test_mcp_handler as TestHandler).is_mcp(),
            Handler::new("test_error", test_error_handler as TestHandler),
        ],
    )
}

/// Serves a query as the backend service does: dispatch, run the handler, answer.
fn serve(service: &DbService<TestDb, TestHandler>, req: QueryRequest) -> Result<QueryResponse, helix_gateway::error::GrpcStatus> {
    let func = service.dispatch(&req)?.func;
    finish_query(func(QueryInput::new(req, service.db().clone())))
}

#[test]
fn test_db_service_read_query_success() {
    let response = serve(&test_service(), request(0, "test_read")).unwrap();
    assert_eq!(response.status, 200);
    let result = String::from_utf8(response.data).unwrap();
    assert!(result.contains("Read result for: test_read"));
}

#[test]
fn test_db_service_write_query_success() {
    let response = serve(&test_service(), request(1, "test_write")).unwrap();
    assert_eq!(response.status, 200);
    let result = String::from_utf8(response.data).unwrap();
    assert!(result.contains("Write completed for: test_write"));
}

#[test]
fn test_db_service_mcp_query_success() {
    let response = serve(&test_service(), request(2, "test_mcp")).unwrap();
    assert_eq!(response.status, 200);
    let result = String::from_utf8(response.data).unwrap();
    assert!(result.contains("MCP result for: test_mcp"));
}

#[test]
fn test_db_service_handler_error_returns_internal_status() {
    let status = serve(&test_service(), request(0, "test_error")).unwrap_err();
    assert_eq!(status.code, GrpcCode::Internal);
    assert!(status.message.contains("Handler error occurred"));
}

#[test]
fn test_db_service_read_query_unknown_handler() {
    let service = DbService::new((), handlers());
    let err = service
        .dispatch(&request(0, "nonexistent_handler"))
        .err()
        .unwrap();
    assert_eq!(err.code, GrpcCode::NotFound);
    assert_eq!(err.message, "nonexistent_handler");
}

#[test]
fn test_db_service_write_handler_not_in_read_routes() {
    let service = DbService::new((), handlers());
    let err = service.dispatch(&request(0, "test_write")).err().unwrap();
    assert_eq!(err.code, GrpcCode::NotFound);
    assert_eq!(service.dispatch(&request(1, "test_write")).ok().unwrap().func, 2);
}

#[test]
fn test_db_service_mcp_handler_not_in_read_routes() {
    let service = DbService::new((), handlers());
    assert!(service.dispatch(&request(0, "test_mcp")).is_err());
    assert_eq!(service.dispatch(&request(2, "test_mcp")).ok().unwrap().func, 3);
}

#[test]
fn test_db_service_unknown_request_type_reads() {
    let service = DbService::new(5u8, handlers());
    assert_eq!(service.dispatch(&request(42, "test_read")).ok().unwrap().func, 1);
    assert_eq!(*service.db(), 5);
}

#[test]
fn test_finish_query() {
    let ok = finish_query(Ok(b"Read result for: test_read".to_vec())).unwrap();
    assert_eq!(ok.status, 200);
    assert_eq!(ok.data, b"Read result for: test_read".to_vec());
    let err = finish_query(Err("Handler error occurred".to_string())).unwrap_err();
    assert_eq!(err.code, GrpcCode::Internal);
    assert_eq!(err.message, "Handler error occurred");
}
