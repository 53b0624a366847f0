//! Gateway error types and the HTTP status that each of them is answered with.
use vstd::prelude::*;

verus! {

/// The status codes of the gRPC protocol.
#[derive(Debug, Clone, Copy, PartialEq, Eq, Structural)]
pub enum GrpcCode {
    /// The call succeeded (`OK` in the protocol).
    Success,
    Cancelled,
    Unknown,
    InvalidArgument,
    DeadlineExceeded,
    NotFound,
    AlreadyExists,
    PermissionDenied,
    ResourceExhausted,
    FailedPrecondition,
    Aborted,
    OutOfRange,
    Unimplemented,
    Internal,
    Unavailable,
    DataLoss,
    Unauthenticated,
}

impl GrpcCode {
    /// Whether a failed call with this code means that the backend cannot be reached
    /// for now, so that the request is worth buffering until it recovers.
    pub open spec fn spec_is_transient(self) -> bool {
        self == GrpcCode::Unavailable || self == GrpcCode::DeadlineExceeded
    }

    pub fn is_transient(self) -> (r: bool)
        ensures
            r == self.spec_is_transient(),
            r <==> (self == GrpcCode::Unavailable || self == GrpcCode::DeadlineExceeded),
    {
        match self {
            GrpcCode::Unavailable | GrpcCode::DeadlineExceeded => true,
            _ => false,
        }
    }
}

/// A gRPC status as the gateway sees it: its code, its message, and how the transport
/// renders it as text.
#[derive(Debug, Clone)]
pub struct GrpcStatus {
    pub code: GrpcCode,
    pub message: String,
    pub description: String,
}

impl GrpcStatus {
    /// A status with the given code and message, rendered as its message.
    pub fn new(code: GrpcCode, message: String) -> (r: GrpcStatus)
        ensures
            r.code == code,
            r.message == message,
            r.description == message,
    {
        let description = message.clone();
        GrpcStatus { code, message, description }
    }
}

/// Gateway error types, each answered with its own HTTP status.
#[derive(Debug, Clone)]
pub enum GatewayError {
    /// The body could not be parsed; holds the parser's message.
    ParseError(String),
    QueryNotFound,
    InvalidRequest(String),
    MissingParametersError(String),
    Grpc(GrpcStatus),
    BackendUnavailable,
    /// An internal failure; holds its description, which is not shown to clients.
    InternalError(String),
    /// The request buffer holds as many requests as it may.
    BufferFull,
    /// The rate limiter refused the request.
    RateLimited,
    /// The request waited in the buffer for longer than it may.
    RequestTimeout,
    EmbeddingError(String),
    RedisError(String),
}

pub open spec fn http_bad_request() -> u16 {
    400
}

impl GatewayError {
    /// The HTTP status code that answers the error.
    pub open spec fn spec_status_code(&self) -> u16 {
        match self {
            GatewayError::ParseError(_) => 400,
            GatewayError::InvalidRequest(_) => 400,
            GatewayError::MissingParametersError(_) => 400,
            GatewayError::QueryNotFound => 404,
            GatewayError::Grpc(_) => 500,
            GatewayError::BackendUnavailable => 503,
            GatewayError::InternalError(_) => 500,
            GatewayError::BufferFull => 503,
            GatewayError::RateLimited => 429,
            GatewayError::RequestTimeout => 408,
            GatewayError::EmbeddingError(_) => 500,
            GatewayError::RedisError(_) => 500,
        }
    }

    /// The HTTP status code that answers the error.
    pub fn status_code(&self) -> (r: u16)
        ensures
            r == self.spec_status_code(),
    {
        match self {
            GatewayError::ParseError(_) => 400,
            GatewayError::InvalidRequest(_) => 400,
            GatewayError::MissingParametersError(_) => 400,
            GatewayError::QueryNotFound => 404,
            GatewayError::Grpc(_) => 500,
            GatewayError::BackendUnavailable => 503,
            GatewayError::InternalError(_) => 500,
            GatewayError::BufferFull => 503,
            GatewayError::RateLimited => 429,
            GatewayError::RequestTimeout => 408,
            GatewayError::EmbeddingError(_) => 500,
            GatewayError::RedisError(_) => 500,
        }
    }

    /// The text of the error, as shown to clients in the `error` field of the body.
    pub open spec fn spec_message(&self) -> Seq<char> {
        match self {
            GatewayError::ParseError(e) => "parse error: "@ + e@,
            GatewayError::QueryNotFound => "query not found"@,
            GatewayError::InvalidRequest(s) => "Invalid request: "@ + s@,
            GatewayError::MissingParametersError(s) => "missing parameters: "@ + s@,
            GatewayError::Grpc(st) => "gRPC error: "@ + st.description@,
            GatewayError::BackendUnavailable => "Backend unavailable"@,
            GatewayError::InternalError(_) => "Internal server error"@,
            GatewayError::BufferFull => "request buffer full"@,
            GatewayError::RateLimited => "rate limit exceeded"@,
            GatewayError::RequestTimeout => "request timed out"@,
            GatewayError::EmbeddingError(s) => "embedding error: "@ + s@,
            GatewayError::RedisError(s) => "redis error: "@ + s@,
        }
    }

    /// The text of the error, as shown to clients in the `error` field of the body.
    pub fn to_string(&self) -> (r: String)
        ensures
            r@ == self.spec_message(),
    {
        match self {
            GatewayError::ParseError(e) => "parse error: ".to_owned().concat(e.as_str()),
            GatewayError::QueryNotFound => "query not found".to_owned(),
            GatewayError::InvalidRequest(s) => "Invalid request: ".to_owned().concat(s.as_str()),
            GatewayError::MissingParametersError(s) => "missing parameters: ".to_owned().concat(
                s.as_str(),
            ),
            GatewayError::Grpc(st) => "gRPC error: ".to_owned().concat(st.description.as_str()),
            GatewayError::BackendUnavailable => "Backend unavailable".to_owned(),
            GatewayError::InternalError(_) => "Internal server error".to_owned(),
            GatewayError::BufferFull => "request buffer full".to_owned(),
            GatewayError::RateLimited => "rate limit exceeded".to_owned(),
            GatewayError::RequestTimeout => "request timed out".to_owned(),
            GatewayError::EmbeddingError(s) => "embedding error: ".to_owned().concat(s.as_str()),
            GatewayError::RedisError(s) => "redis error: ".to_owned().concat(s.as_str()),
        }
    }
}

/// Errors about the request itself are answered with 400, whatever they carry.
pub proof fn lemma_client_errors_are_bad_requests(e: GatewayError)
    requires
        e is ParseError || e is InvalidRequest || e is MissingParametersError,
    ensures
        e.spec_status_code() == http_bad_request(),
{
}

/// Only an unavailable backend and a missed deadline count as transient failures, after
/// which a request is buffered and the backend reported unhealthy; every other code is
/// final.
pub proof fn lemma_transient_codes(c: GrpcCode)
    ensures
        c.spec_is_transient() <==> (c == GrpcCode::Unavailable || c == GrpcCode::DeadlineExceeded),
        c == GrpcCode::Unavailable ==> c.spec_is_transient(),
        c == GrpcCode::DeadlineExceeded ==> c.spec_is_transient(),
        c != GrpcCode::Unavailable && c != GrpcCode::DeadlineExceeded ==> !c.spec_is_transient(),
{
}

} // verus!
