//! The HTTP side of the gateway: request buffering, query introspection,
//! embedding requests, MCP state and the decisions of the route handlers.

use vstd::prelude::*;

pub mod buffer;
pub mod embeddings;
pub mod introspection;
pub mod mcp;
pub mod routes;

verus! {

/// The health of the backend database as the gateway last observed it.
#[derive(Debug, Clone, Copy, PartialEq, Eq, Structural)]
pub enum DbStatus {
    Healthy,
    Unhealthy,
}

impl Default for DbStatus {
    fn default() -> (r: DbStatus)
        ensures
            r == DbStatus::Healthy,
    {
        DbStatus::Healthy
    }
}

impl DbStatus {
    /// Replaces the status with `status`; tells whether it changed, that is
    /// whether watchers of the status must be notified.
    pub fn update_to(&mut self, status: DbStatus) -> (changed: bool)
        ensures
            *final(self) == status,
            changed == (*old(self) != status),
    {
        if *self != status {
            *self = status;
            true
        } else {
            false
        }
    }
}

/// Whether the background task drains the request buffer after the status changed to
/// `status`: it drains only once the backend is healthy again.
pub fn should_drain(status: DbStatus) -> (r: bool)
    ensures
        r == (status == DbStatus::Healthy),
{
    match status {
        DbStatus::Healthy => true,
        DbStatus::Unhealthy => false,
    }
}

} // verus!
