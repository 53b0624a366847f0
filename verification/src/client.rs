//! Choice of backend connection: the pool of connections to one backend, and the
//! routing of requests between a primary and an optional read replica.
use vstd::prelude::*;

use crate::config::GrpcConfig;
use crate::proto::RequestType;

verus! {

/// Default number of connections in a pool: with about a hundred streams per HTTP/2
/// connection, 32 connections carry some 3200 concurrent requests.
pub const DEFAULT_POOL_SIZE: usize = 32;

/// The number of connections a pool opens when `requested` are asked for: at least one.
pub open spec fn spec_pool_size(requested: usize) -> usize {
    if requested == 0 {
        1
    } else {
        requested
    }
}

pub fn pool_size_for(requested: usize) -> (r: usize)
    ensures
        r == spec_pool_size(requested),
        r >= 1,
        requested >= 1 ==> r == requested,
        requested == 0 ==> r == 1,
{
    if requested == 0 {
        1
    } else {
        requested
    }
}

/// A non-empty pool of clients of one backend, served round the pool by a key.
pub struct ClientPool<C> {
    clients: Vec<C>,
}

impl<C> ClientPool<C> {
    /// A pool always holds at least one client.
    #[verifier::type_invariant]
    spec fn non_empty(&self) -> bool {
        self.clients@.len() > 0
    }

    /// The clients of the pool.
    pub closed spec fn members(&self) -> Seq<C> {
        self.clients@
    }

    /// A pool of the given clients; refuses an empty list.
    pub fn new(clients: Vec<C>) -> (r: Option<ClientPool<C>>)
        ensures
            clients@.len() == 0 <==> r.is_none(),
            r matches Some(p) ==> p.members() == clients@,
    {
        if clients.len() == 0 {
            None
        } else {
            Some(ClientPool { clients })
        }
    }

    /// The client that serves `key` (a hash of the calling thread).
    pub fn client(&self, key: u64) -> (r: &C)
        ensures
            self.members().len() > 0,
            *r == self.members()[((key as usize) % (self.members().len() as usize)) as int],
    {
        proof {
            use_type_invariant(self);
        }
        let n = self.clients.len();
        let idx = (key as usize) % n;
        &self.clients[idx]
    }

    /// Returns the number of connections in the pool.
    pub fn pool_size(&self) -> (r: usize)
        ensures
            r == self.members().len(),
            r >= 1,
    {
        proof {
            use_type_invariant(self);
        }
        self.clients.len()
    }
}

/// Which connection a request goes to.
#[derive(Debug, Clone, Copy, PartialEq, Eq, Structural)]
pub enum ClientRole {
    Primary,
    Replica,
}

/// Writes go to the primary; reads and MCP requests go to the read replica.
pub open spec fn spec_role_for(t: RequestType) -> ClientRole {
    match t {
        RequestType::Write => ClientRole::Primary,
        RequestType::Read | RequestType::Mcp => ClientRole::Replica,
    }
}

/// Routes requests between the primary backend and a read replica. Where no replica
/// is configured, the read client is a clone of the write client.
#[derive(Clone)]
pub struct RoutingClient<C> {
    write_client: C,
    read_client: C,
    has_read_replica: bool,
}

impl<C> RoutingClient<C> {
    pub closed spec fn writer(&self) -> C {
        self.write_client
    }

    pub closed spec fn reader(&self) -> C {
        self.read_client
    }

    pub closed spec fn replicated(&self) -> bool {
        self.has_read_replica
    }

    /// The client of a role.
    pub open spec fn spec_client(&self, role: ClientRole) -> C {
        match role {
            ClientRole::Primary => self.writer(),
            ClientRole::Replica => self.reader(),
        }
    }

    /// A routing client over a replica's client.
    pub fn with_replica(write_client: C, read_client: C) -> (r: Self)
        ensures
            r.writer() == write_client,
            r.reader() == read_client,
            r.replicated(),
    {
        RoutingClient { write_client, read_client, has_read_replica: true }
    }

    /// Returns the appropriate client for the given request type: writes go to the
    /// primary, reads and MCP requests to the replica if configured.
    pub fn client_for(&self, request_type: RequestType) -> (r: &C)
        ensures
            *r == self.spec_client(spec_role_for(request_type)),
    {
        match request_type {
            RequestType::Write => &self.write_client,
            RequestType::Read | RequestType::Mcp => &self.read_client,
        }
    }

    /// Returns the write client directly.
    pub fn write_client(&self) -> (r: &C)
        ensures
            *r == self.writer(),
    {
        &self.write_client
    }

    /// Returns the read client directly.
    pub fn read_client(&self) -> (r: &C)
        ensures
            *r == self.reader(),
    {
        &self.read_client
    }

    /// Returns true if a separate read replica is configured.
    pub fn has_read_replica(&self) -> (r: bool)
        ensures
            r == self.replicated(),
    {
        self.has_read_replica
    }
}

impl<C: Clone> RoutingClient<C> {
    /// A routing client with only a primary: reads share (a clone of) the write client.
    pub fn single(write_client: C) -> (r: Self)
        ensures
            r.writer() == write_client,
            cloned(write_client, r.reader()),
            !r.replicated(),
    {
        let read_client = write_client.clone();
        RoutingClient { write_client, read_client, has_read_replica: false }
    }

    /// A routing client over the primary's client and, where a replica was connected,
    /// the replica's; without one, reads share (a clone of) the write client.
    pub fn from_clients(write_client: C, read_client: Option<C>) -> (r: Self)
        ensures
            r.writer() == write_client,
            r.replicated() == read_client.is_some(),
            read_client matches Some(rc) ==> r.reader() == rc,
            read_client is None ==> cloned(write_client, r.reader()),
    {
        match read_client {
            Some(rc) => RoutingClient::with_replica(write_client, rc),
            None => RoutingClient::single(write_client),
        }
    }
}

/// The configuration of the read replica's connections, where `READ_BACKEND_ADDR` names
/// one: the primary's configuration with the replica's address.
pub fn replica_config(config: &GrpcConfig) -> (r: Option<GrpcConfig>)
    ensures
        config.read_backend_addr is None <==> r is None,
        r matches Some(c) ==> c.backend_addr == config.read_backend_addr.unwrap()
            && c.read_backend_addr == config.read_backend_addr && c.connect_timeout
            == config.connect_timeout && c.request_timeout == config.request_timeout
            && c.tcp_keepalive == config.tcp_keepalive && c.http2_keepalive_interval
            == config.http2_keepalive_interval && c.http2_keepalive_timeout
            == config.http2_keepalive_timeout && c.http2_adaptive_window
            == config.http2_adaptive_window,
{
    match &config.read_backend_addr {
        Some(addr) => Some(config.with_backend_addr(addr.clone())),
        None => None,
    }
}

/// Writes always reach the primary, and reads and MCP requests always reach the same
/// client as each other.
pub proof fn lemma_routing<C>(rc: RoutingClient<C>)
    ensures
        rc.spec_client(spec_role_for(RequestType::Write)) == rc.writer(),
        rc.spec_client(spec_role_for(RequestType::Read)) == rc.reader(),
        rc.spec_client(spec_role_for(RequestType::Mcp)) == rc.reader(),
{
}

/// A pool opens exactly as many connections as were asked for, whatever the number, and
/// one where none were asked for; so of two requests, the larger never opens fewer.
pub proof fn lemma_pool_size_as_requested(requested: usize, other: usize)
    ensures
        requested >= 1 ==> spec_pool_size(requested) == requested,
        requested == 0 ==> spec_pool_size(requested) == 1,
        1 <= requested <= other ==> spec_pool_size(requested) <= spec_pool_size(other),
        requested != other && requested >= 1 && other >= 1 ==> spec_pool_size(requested)
            != spec_pool_size(other),
{
}

} // verus!
