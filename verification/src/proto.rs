//! The messages that the gateway exchanges with the backend service.
use vstd::prelude::*;
use pbjson_types::Struct;

verus! {

/// A protobuf `Struct`: a JSON object of parameters, carried through unchanged.
#[verifier::external_type_specification]
#[verifier::external_body]
pub struct ExStruct(Struct);

/// `Struct::clone`; nothing is claimed of the copy.
pub assume_specification[ <Struct as Clone>::clone ](s: &Struct) -> Struct;

/// The kind of a query request, which decides where it is routed.
#[derive(Debug, Clone, Copy, PartialEq, Eq, Structural)]
pub enum RequestType {
    Read,
    Write,
    Mcp,
}

impl Default for RequestType {
    fn default() -> (r: RequestType)
        ensures
            r == RequestType::Read,
    {
        RequestType::Read
    }
}

impl RequestType {
    /// The number that stands for the kind on the wire.
    pub open spec fn spec_to_i32(self) -> i32 {
        match self {
            RequestType::Read => 0,
            RequestType::Write => 1,
            RequestType::Mcp => 2,
        }
    }

    /// The kind that a number on the wire stands for; numbers of no kind read as `Read`.
    pub open spec fn spec_from_i32(v: i32) -> RequestType {
        if v == 1 {
            RequestType::Write
        } else if v == 2 {
            RequestType::Mcp
        } else {
            RequestType::Read
        }
    }

    pub fn to_i32(self) -> (r: i32)
        ensures
            r == self.spec_to_i32(),
    {
        match self {
            RequestType::Read => 0,
            RequestType::Write => 1,
            RequestType::Mcp => 2,
        }
    }

    pub fn from_i32(v: i32) -> (r: RequestType)
        ensures
            r == RequestType::spec_from_i32(v),
    {
        if v == 1 {
            RequestType::Write
        } else if v == 2 {
            RequestType::Mcp
        } else {
            RequestType::Read
        }
    }
}

/// Reading back the number of a kind gives the kind.
pub proof fn lemma_request_type_round_trip(t: RequestType)
    ensures
        RequestType::spec_from_i32(t.spec_to_i32()) == t,
{
}

/// A query for the backend: the query's name, its kind, its parameters and the
/// embeddings computed for it.
#[derive(Debug, Clone)]
pub struct QueryRequest {
    pub request_type: i32,
    pub query: String,
    pub parameters: Option<Struct>,
    pub embeddings: Option<Struct>,
}

impl QueryRequest {
    /// The kind of the request; an unknown number reads as `Read`.
    pub fn request_type(&self) -> (r: RequestType)
        ensures
            r == RequestType::spec_from_i32(self.request_type),
    {
        RequestType::from_i32(self.request_type)
    }
}

/// The backend's answer to a query: its data and a status.
#[derive(Debug, Clone, PartialEq, Eq)]
pub struct QueryResponse {
    pub data: Vec<u8>,
    pub status: i32,
}

/// A health check request.
#[derive(Debug, Clone, Copy, PartialEq, Eq, Structural)]
pub struct HealthRequest {}

/// The backend's answer to a health check.
#[derive(Debug, Clone, PartialEq, Eq)]
pub struct HealthResponse {
    pub healthy: bool,
    pub version: String,
}

} // verus!
