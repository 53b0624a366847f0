//! The decisions of the gateway's HTTP handlers.
//!
//! Serving a query alternates outside work (parsing the body, computing embeddings,
//! calling the backend, waiting in the buffer) with decisions. The decisions are the
//! step functions here: each takes the handler's state and what the last piece of
//! outside work produced, and gives the next state, the next piece of work, and the
//! backend status to report where it changed.
use vstd::prelude::*;
use pbjson_types::Struct;

use crate::error::{GatewayError, GrpcStatus};
use crate::gateway::DbStatus;
use crate::gateway::buffer::{BufferedRequest, BufferedResponse};
use crate::gateway::embeddings::{pairs_view, texts_for, texts_to_embed};
use crate::gateway::introspection::{DbQuery, EmbeddingConfig, Introspection};
use crate::proto::{QueryRequest, QueryResponse};

verus! {

/// The first delay, in milliseconds, before a failed backend call is retried; each
/// further delay grows exponentially from it.
pub const RETRY_BASE_MS: u64 = 100;

/// The longest delay, in milliseconds, between two attempts of a backend call.
pub const RETRY_MAX_DELAY_MS: u64 = 1000;

/// How many times a failed backend call is retried.
pub const RETRY_ATTEMPTS: usize = 3;

// ---------------------------------------------------------------------------
// Serving `POST /{query}`
// ---------------------------------------------------------------------------

/// Where the handling of a query request stands.
pub enum QueryState<'a> {
    /// The request arrived for the named query; the rate limiter is consulted next.
    Received { query: String },
    /// The query is known; its body is parsed next.
    Parsing { query: String, db_query: &'a DbQuery },
    /// The parameters are parsed; embeddings of some of them are computed next.
    Embedding { query: String, db_query: &'a DbQuery, parameters: Struct },
    /// The request is ready; the backend is called next.
    Calling { request: QueryRequest },
    /// The backend is unavailable; the request waits in the buffer.
    Buffered,
    /// The answer is given.
    Finished,
}

/// What a piece of outside work produced.
pub enum QueryEvent {
    /// Whether the rate limiter refused the request.
    Admission { rate_limited: bool },
    /// The parsed body: the parameters, and each parameter's name with its text where
    /// it is a string; or the parse error.
    Parsed(Result<(Struct, Vec<(String, Option<String>)>), GatewayError>),
    /// The embeddings of the texts, keyed by variable; or why they could not be computed.
    Embedded(Result<Struct, GatewayError>),
    /// The backend's reply, after retries.
    BackendReplied(Result<QueryResponse, GrpcStatus>),
    /// The answer that the buffered request got, or why it got none.
    BufferReplied(BufferedResponse),
}

/// The next piece of outside work.
pub enum QueryAction<'a> {
    /// Parse the body into the query's parameters.
    ParseBody,
    /// Compute the embeddings of these (variable, text) pairs with this configuration.
    Embed { config: &'a EmbeddingConfig, texts: Vec<(String, String)> },
    /// Send the request held by the state to the backend.
    CallBackend,
    /// Put the request in the buffer and wait for its answer.
    BufferRequest(QueryRequest),
    /// Answer the client.
    Reply(Result<QueryResponse, GatewayError>),
}

/// The outcome of a decision.
pub struct QueryStep<'a> {
    pub state: QueryState<'a>,
    pub action: QueryAction<'a>,
    /// The backend status to report to the buffer's watcher, where there is one.
    pub report: Option<DbStatus>,
}

/// Whether `event` is the outcome of the work that `state` asked for.
pub open spec fn query_event_fits(state: QueryState, event: QueryEvent) -> bool {
    match state {
        QueryState::Received { .. } => event is Admission,
        QueryState::Parsing { .. } => event is Parsed,
        QueryState::Embedding { .. } => event is Embedded,
        QueryState::Calling { .. } => event is BackendReplied,
        QueryState::Buffered => event is BufferReplied,
        QueryState::Finished => false,
    }
}

/// The request sent to the backend for a query.
pub open spec fn spec_backend_request(
    query: String,
    db_query: DbQuery,
    parameters: Struct,
    embeddings: Option<Struct>,
) -> QueryRequest {
    QueryRequest {
        request_type: db_query.request_type.spec_to_i32(),
        query,
        parameters: Some(parameters),
        embeddings,
    }
}

/// Whether `r` is the step that follows `state` on `event`.
pub open spec fn spec_query_step(
    state: QueryState,
    event: QueryEvent,
    introspection: Introspection,
    r: QueryStep,
) -> bool {
    match (state, event) {
        (QueryState::Received { query }, QueryEvent::Admission { rate_limited }) => if rate_limited {
            &&& r.state is Finished
            &&& r.action matches QueryAction::Reply(Err(GatewayError::RateLimited))
            &&& r.report is None
        } else {
            match introspection.spec_query(query@) {
                None => {
                    &&& r.state is Finished
                    &&& r.action matches QueryAction::Reply(Err(GatewayError::QueryNotFound))
                    &&& r.report is None
                },
                Some(q) => {
                    &&& r.state matches QueryState::Parsing { query: rq, db_query }
                        && rq == query && *db_query == q
                    &&& r.action is ParseBody
                    &&& r.report is None
                },
            }
        },
        (QueryState::Parsing { query, db_query }, QueryEvent::Parsed(parsed)) => match parsed {
            Err(e) => {
                &&& r.state is Finished
                &&& r.action == QueryAction::Reply(Err(e))
                &&& r.report is None
            },
            Ok((parameters, fields)) => {
                let texts = match db_query.embedding_config {
                    Some(cfg) => texts_for(cfg.embedded_variables@, fields@),
                    None => Seq::empty(),
                };
                &&& r.report is None
                &&& if texts.len() > 0 {
                    &&& r.state matches QueryState::Embedding { query: rq, db_query: rd, parameters: rp }
                        && rq == query && rd == db_query && rp == parameters
                    &&& r.action matches QueryAction::Embed { config, texts: rt }
                        && db_query.embedding_config == Some(*config) && pairs_view(rt@) == texts
                } else {
                    &&& r.state matches QueryState::Calling { request } && request
                        == spec_backend_request(query, *db_query, parameters, None)
                    &&& r.action is CallBackend
                }
            },
        },
        (QueryState::Embedding { query, db_query, parameters }, QueryEvent::Embedded(embedded)) => {
            &&& r.report is None
            &&& match embedded {
                Err(e) => r.state is Finished && r.action == QueryAction::Reply(Err(e)),
                Ok(embeddings) => {
                    &&& r.state matches QueryState::Calling { request } && request
                        == spec_backend_request(query, *db_query, parameters, Some(embeddings))
                    &&& r.action is CallBackend
                },
            }
        },
        (QueryState::Calling { request }, QueryEvent::BackendReplied(reply)) => match reply {
            Ok(response) => {
                &&& r.state is Finished
                &&& r.action == QueryAction::Reply(Ok(response))
                &&& r.report == Some(DbStatus::Healthy)
            },
            Err(status) => if status.code.spec_is_transient() {
                &&& r.state is Buffered
                &&& r.action == QueryAction::BufferRequest(request)
                &&& r.report == Some(DbStatus::Unhealthy)
            } else {
                &&& r.state is Finished
                &&& r.action matches QueryAction::Reply(Err(GatewayError::BackendUnavailable))
                &&& r.report is None
            },
        },
        (QueryState::Buffered, QueryEvent::BufferReplied(answer)) => {
            &&& r.state is Finished
            &&& r.action == QueryAction::Reply(answer)
            &&& r.report is None
        },
        _ => false,
    }
}

/// The request that a step in the `Calling` state sends.
pub fn built_request<'a>(state: &'a QueryState) -> (r: Option<&'a QueryRequest>)
    ensures
        match state {
            QueryState::Calling { request } => r == Some(request),
            _ => r is None,
        },
{
    match state {
        QueryState::Calling { request } => Some(request),
        _ => None,
    }
}

/// Decides what follows `state` once `event` happened.
///
/// In order: a request the rate limiter refuses is answered `RateLimited`; an unknown
/// query `QueryNotFound`; a body that does not parse with its parse error. Where the
/// query embeds some of its string parameters, their embeddings are computed and sent
/// along. The backend's reply is answered as it is, and reports the backend healthy;
/// a transient failure (unavailable, deadline exceeded) reports it unhealthy and
/// buffers the request until it recovers; any other failure is `BackendUnavailable`.
pub fn next_query_step<'a>(
    state: QueryState<'a>,
    event: QueryEvent,
    introspection: &'a Introspection,
) -> (r: QueryStep<'a>)
    requires
        query_event_fits(state, event),
    ensures
        spec_query_step(state, event, *introspection, r),
{
    match (state, event) {
        (QueryState::Received { query }, QueryEvent::Admission { rate_limited }) => {
            if rate_limited {
                return QueryStep {
                    state: QueryState::Finished,
                    action: QueryAction::Reply(Err(GatewayError::RateLimited)),
                    report: None,
                };
            }
            match introspection.query(query.as_str()) {
                None => QueryStep {
                    state: QueryState::Finished,
                    action: QueryAction::Reply(Err(GatewayError::QueryNotFound)),
                    report: None,
                },
                Some(db_query) => QueryStep {
                    state: QueryState::Parsing { query, db_query },
                    action: QueryAction::ParseBody,
                    report: None,
                },
            }
        },
        (QueryState::Parsing { query, db_query }, QueryEvent::Parsed(parsed)) => match parsed {
            Err(e) => QueryStep {
                state: QueryState::Finished,
                action: QueryAction::Reply(Err(e)),
                report: None,
            },
            Ok((parameters, fields)) => {
                match &db_query.embedding_config {
                    Some(config) => {
                        let texts = texts_to_embed(config, &fields);
                        if texts.len() > 0 {
                            return QueryStep {
                                state: QueryState::Embedding { query, db_query, parameters },
                                action: QueryAction::Embed { config, texts },
                                report: None,
                            };
                        }
                    },
                    None => {},
                }
                let request = QueryRequest {
                    request_type: db_query.request_type.to_i32(),
                    query,
                    parameters: Some(parameters),
                    embeddings: None,
                };
                QueryStep {
                    state: QueryState::Calling { request },
                    action: QueryAction::CallBackend,
                    report: None,
                }
            },
        },
        (QueryState::Embedding { query, db_query, parameters }, QueryEvent::Embedded(embedded)) => {
            match embedded {
                Err(e) => QueryStep {
                    state: QueryState::Finished,
                    action: QueryAction::Reply(Err(e)),
                    report: None,
                },
                Ok(embeddings) => {
                    let request = QueryRequest {
                        request_type: db_query.request_type.to_i32(),
                        query,
                        parameters: Some(parameters),
                        embeddings: Some(embeddings),
                    };
                    QueryStep {
                        state: QueryState::Calling { request },
                        action: QueryAction::CallBackend,
                        report: None,
                    }
                },
            }
        },
        (QueryState::Calling { request }, QueryEvent::BackendReplied(reply)) => match reply {
            Ok(response) => QueryStep {
                state: QueryState::Finished,
                action: QueryAction::Reply(Ok(response)),
                report: Some(DbStatus::Healthy),
            },
            Err(status) => {
                if status.code.is_transient() {
                    QueryStep {
                        state: QueryState::Buffered,
                        action: QueryAction::BufferRequest(request),
                        report: Some(DbStatus::Unhealthy),
                    }
                } else {
                    QueryStep {
                        state: QueryState::Finished,
                        action: QueryAction::Reply(Err(GatewayError::BackendUnavailable)),
                        report: None,
                    }
                }
            },
        },
        (QueryState::Buffered, QueryEvent::BufferReplied(answer)) => QueryStep {
            state: QueryState::Finished,
            action: QueryAction::Reply(answer),
            report: None,
        },
        _ => unreached(),
    }
}

// ---------------------------------------------------------------------------
// Draining the buffer once the backend recovered
// ---------------------------------------------------------------------------

/// Where the draining of the buffer stands.
pub enum DrainPhase {
    /// The next request is taken out of the buffer.
    Idle,
    /// The request is being sent to the backend.
    Forwarding(BufferedRequest),
    /// The buffer is empty; draining is over.
    Done,
}

/// The state of a drain: how many requests were answered after a backend call, and
/// where it stands.
pub struct DrainState {
    pub processed: usize,
    pub phase: DrainPhase,
}

/// What a piece of outside work produced while draining.
pub enum DrainEvent {
    /// The request taken out of the buffer (after the rate limiter let it through), with
    /// whether its client is gone and how long, in nanoseconds, it waited; `None` where
    /// the buffer was empty.
    Dequeued(Option<(BufferedRequest, bool, u128)>),
    /// The backend's reply to the forwarded request, after retries.
    BackendReplied(Result<QueryResponse, GrpcStatus>),
}

/// The next piece of outside work while draining.
pub enum DrainAction {
    /// Nothing; the next request is taken.
    Skip,
    /// Send this answer to the request's waiting client.
    Respond(BufferedRequest, BufferedResponse),
    /// Send the request held by the state to the backend.
    CallBackend,
    /// Put a copy of the request back in the buffer and answer the request with what
    /// arrived for the copy.
    Requeue(BufferedRequest),
    /// Draining is over; this many requests were processed.
    Finish(usize),
}

/// The outcome of a drain decision.
pub struct DrainStep {
    pub state: DrainState,
    pub action: DrainAction,
    /// The backend status to report to the buffer's watcher, where there is one.
    pub report: Option<DbStatus>,
}

/// A drain that has not taken any request yet.
pub fn start_drain() -> (r: DrainState)
    ensures
        r.processed == 0,
        r.phase is Idle,
{
    DrainState { processed: 0, phase: DrainPhase::Idle }
}

/// Whether `event` is the outcome of the work that the drain asked for.
pub open spec fn drain_event_fits(state: DrainState, event: DrainEvent) -> bool {
    match state.phase {
        DrainPhase::Idle => event is Dequeued,
        DrainPhase::Forwarding(_) => event is BackendReplied && state.processed < usize::MAX,
        DrainPhase::Done => false,
    }
}

/// Whether `r` is the drain step that follows `state` on `event`, where requests that
/// waited longer than `timeout_nanos` are answered `RequestTimeout`.
pub open spec fn spec_drain_step(state: DrainState, event: DrainEvent, timeout_nanos: u128, r: DrainStep) -> bool {
    match (state.phase, event) {
        (DrainPhase::Idle, DrainEvent::Dequeued(taken)) => match taken {
            None => {
                &&& r.state.phase is Done
                &&& r.state.processed == state.processed
                &&& r.action == DrainAction::Finish(state.processed)
                &&& r.report is None
            },
            Some((req, cancelled, waited)) => {
                &&& r.state.processed == state.processed
                &&& r.report is None
                &&& if cancelled {
                    r.state.phase is Idle && r.action is Skip
                } else if waited > timeout_nanos {
                    r.state.phase is Idle && r.action == DrainAction::Respond(
                        req,
                        Err(GatewayError::RequestTimeout),
                    )
                } else {
                    r.state.phase == DrainPhase::Forwarding(req) && r.action is CallBackend
                }
            },
        },
        (DrainPhase::Forwarding(req), DrainEvent::BackendReplied(reply)) => {
            &&& r.state.phase is Idle
            &&& r.state.processed == state.processed + 1
            &&& match reply {
                Ok(response) => {
                    &&& r.action == DrainAction::Respond(req, Ok(response))
                    &&& r.report == Some(DbStatus::Healthy)
                },
                Err(status) => if status.code.spec_is_transient() {
                    &&& r.action == DrainAction::Requeue(req)
                    &&& r.report == Some(DbStatus::Unhealthy)
                } else {
                    &&& r.action matches DrainAction::Respond(rq, Err(GatewayError::BackendUnavailable))
                        && rq == req
                    &&& r.report is None
                },
            }
        },
        _ => false,
    }
}

/// The request that a drain in the `Forwarding` phase sends.
pub fn forwarded_request(state: &DrainState) -> (r: Option<&BufferedRequest>)
    ensures
        match state.phase {
            DrainPhase::Forwarding(req) => r == Some(&req),
            _ => r is None,
        },
{
    match &state.phase {
        DrainPhase::Forwarding(req) => Some(req),
        _ => None,
    }
}

/// Decides what the drain does next once `event` happened.
///
/// A request whose client is gone is dropped; one that waited longer than the timeout
/// is answered `RequestTimeout`; neither is counted. Any other request is sent to the
/// backend and counted: a reply is passed on and reports the backend healthy; a
/// transient failure reports it unhealthy and puts the request back; any other failure
/// is answered `BackendUnavailable`. An empty buffer ends the drain.
pub fn next_drain_step(state: DrainState, event: DrainEvent, timeout_nanos: u128) -> (r: DrainStep)
    requires
        drain_event_fits(state, event),
    ensures
        spec_drain_step(state, event, timeout_nanos, r),
{
    let processed = state.processed;
    match (state.phase, event) {
        (DrainPhase::Idle, DrainEvent::Dequeued(taken)) => match taken {
            None => DrainStep {
                state: DrainState { processed, phase: DrainPhase::Done },
                action: DrainAction::Finish(processed),
                report: None,
            },
            Some((req, cancelled, waited)) => {
                if cancelled {
                    DrainStep {
                        state: DrainState { processed, phase: DrainPhase::Idle },
                        action: DrainAction::Skip,
                        report: None,
                    }
                } else if waited > timeout_nanos {
                    DrainStep {
                        state: DrainState { processed, phase: DrainPhase::Idle },
                        action: DrainAction::Respond(req, Err(GatewayError::RequestTimeout)),
                        report: None,
                    }
                } else {
                    DrainStep {
                        state: DrainState { processed, phase: DrainPhase::Forwarding(req) },
                        action: DrainAction::CallBackend,
                        report: None,
                    }
                }
            },
        },
        (DrainPhase::Forwarding(req), DrainEvent::BackendReplied(reply)) => {
            let next = DrainState { processed: processed + 1, phase: DrainPhase::Idle };
            match reply {
                Ok(response) => DrainStep {
                    state: next,
                    action: DrainAction::Respond(req, Ok(response)),
                    report: Some(DbStatus::Healthy),
                },
                Err(status) => {
                    if status.code.is_transient() {
                        DrainStep {
                            state: next,
                            action: DrainAction::Requeue(req),
                            report: Some(DbStatus::Unhealthy),
                        }
                    } else {
                        DrainStep {
                            state: next,
                            action: DrainAction::Respond(req, Err(GatewayError::BackendUnavailable)),
                            report: None,
                        }
                    }
                },
            }
        },
        _ => unreached(),
    }
}

/// Requests that are dropped (client gone) or timed out are not counted as processed;
/// each request that got a backend reply is counted once.
pub proof fn lemma_drain_counts_only_forwarded(
    state: DrainState,
    event: DrainEvent,
    timeout_nanos: u128,
    r: DrainStep,
)
    requires
        drain_event_fits(state, event),
        spec_drain_step(state, event, timeout_nanos, r),
    ensures
        event is Dequeued ==> r.state.processed == state.processed,
        event is BackendReplied ==> r.state.processed == state.processed + 1,
        r.action is Finish ==> r.action == DrainAction::Finish(state.processed),
{
}

} // verus!
