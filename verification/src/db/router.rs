//! Route tables of the backend service.
//!
//! Every endpoint is registered as a handler with a name. Write handlers are
//! registered with `is_write`, MCP handlers with `is_mcp`; a handler that is both
//! is a write handler. Each kind of request is looked up in its own table.
use vstd::prelude::*;

use crate::error::{GrpcCode, GrpcStatus};
use crate::proto::{QueryRequest, QueryResponse, RequestType};

verus! {

/// The input of a handler: the request and the database it runs against.
pub struct QueryInput<DB> {
    pub request: QueryRequest,
    pub db: DB,
}

impl<DB> QueryInput<DB> {
    pub fn new(request: QueryRequest, db: DB) -> (r: Self)
        ensures
            r.request == request,
            r.db == db,
    {
        QueryInput { request, db }
    }
}

/// A registered endpoint: its name, the function that serves it, and its flags.
#[derive(Clone, Debug)]
pub struct Handler<F> {
    pub name: &'static str,
    pub func: F,
    pub is_write: bool,
    pub is_mcp: bool,
    pub is_embedding: bool,
}

impl<F> Handler<F> {
    /// A read handler.
    pub fn new(name: &'static str, func: F) -> (r: Self)
        ensures
            r.name == name,
            r.func == func,
            !r.is_write,
            !r.is_mcp,
            !r.is_embedding,
    {
        Handler { name, func, is_write: false, is_mcp: false, is_embedding: false }
    }

    /// The handler, marked as a write.
    pub fn is_write(self) -> (r: Self)
        ensures
            r == (Handler { is_write: true, ..self }),
    {
        Handler { is_write: true, ..self }
    }

    /// The handler, marked as an MCP endpoint.
    pub fn is_mcp(self) -> (r: Self)
        ensures
            r == (Handler { is_mcp: true, ..self }),
    {
        Handler { is_mcp: true, ..self }
    }

    /// The handler, marked as one whose parameters are embedded.
    pub fn is_embedding(self) -> (r: Self)
        ensures
            r == (Handler { is_embedding: true, ..self }),
    {
        Handler { is_embedding: true, ..self }
    }
}

/// The table that a handler or a request belongs to.
#[derive(Debug, Clone, Copy, PartialEq, Eq, Structural)]
pub enum RouteKind {
    Read,
    Write,
    Mcp,
}

/// The table of a handler: writes first, then MCP, then reads.
pub open spec fn spec_route_kind(is_write: bool, is_mcp: bool) -> RouteKind {
    if is_write {
        RouteKind::Write
    } else if is_mcp {
        RouteKind::Mcp
    } else {
        RouteKind::Read
    }
}

pub fn route_kind(is_write: bool, is_mcp: bool) -> (r: RouteKind)
    ensures
        r == spec_route_kind(is_write, is_mcp),
{
    if is_write {
        RouteKind::Write
    } else if is_mcp {
        RouteKind::Mcp
    } else {
        RouteKind::Read
    }
}

/// The table in which a request of the given kind is looked up.
pub open spec fn spec_table_for(t: RequestType) -> RouteKind {
    match t {
        RequestType::Read => RouteKind::Read,
        RequestType::Write => RouteKind::Write,
        RequestType::Mcp => RouteKind::Mcp,
    }
}

pub fn table_for(t: RequestType) -> (r: RouteKind)
    ensures
        r == spec_table_for(t),
{
    match t {
        RequestType::Read => RouteKind::Read,
        RequestType::Write => RouteKind::Write,
        RequestType::Mcp => RouteKind::Mcp,
    }
}

/// Each handler as its name and the table it belongs to.
pub open spec fn handler_routes<F>(hs: Seq<Handler<F>>) -> Seq<(Seq<char>, RouteKind)> {
    hs.map_values(|h: Handler<F>| (h.name@, spec_route_kind(h.is_write, h.is_mcp)))
}

/// The index of the handler that serves `name` in table `kind`: the last one of that
/// name registered in that table.
pub open spec fn last_route(routes: Seq<(Seq<char>, RouteKind)>, kind: RouteKind, name: Seq<char>) -> Option<
    int,
>
    decreases routes.len(),
{
    if routes.len() == 0 {
        None
    } else if routes.last() == (name, kind) {
        Some(routes.len() - 1)
    } else {
        last_route(routes.drop_last(), kind, name)
    }
}

/// The entry of a table for `name`.
pub open spec fn table_entry(t: Seq<(String, usize)>, name: Seq<char>) -> Option<usize> {
    if exists|i: int| 0 <= i < t.len() && (#[trigger] t[i]).0@ == name {
        let i = choose|i: int| 0 <= i < t.len() && (#[trigger] t[i]).0@ == name;
        Some(t[i].1)
    } else {
        None
    }
}

/// No two entries of a table have the same name.
pub open spec fn distinct_names(t: Seq<(String, usize)>) -> bool {
    forall|i: int, j: int| 0 <= i < t.len() && 0 <= j < t.len() && i != j ==> t[i].0@ != t[j].0@
}

/// The route tables, each mapping a name to the index of its handler in the list the
/// tables were built from.
pub struct Router {
    read_routes: Vec<(String, usize)>,
    write_routes: Vec<(String, usize)>,
    mcp_routes: Vec<(String, usize)>,
}

/// Where a name sits in a table with distinct names.
fn find_entry(t: &Vec<(String, usize)>, name: &String) -> (r: Option<usize>)
    requires
        distinct_names(t@),
    ensures
        match r {
            Some(i) => i < t@.len() && t@[i as int].0@ == name@,
            None => forall|i: int| 0 <= i < t@.len() ==> (#[trigger] t@[i]).0@ != name@,
        },
{
    let mut i: usize = 0;
    while i < t.len()
        invariant
            i <= t@.len(),
            forall|j: int| 0 <= j < i ==> (#[trigger] t@[j]).0@ != name@,
        decreases t@.len() - i,
    {
        if t[i].0 == *name {
            return Some(i);
        }
        i = i + 1;
    }
    None
}

/// Records that `name` is now served by handler `idx`, replacing an earlier entry.
fn set_entry(t: &mut Vec<(String, usize)>, name: String, idx: usize)
    requires
        distinct_names(old(t)@),
    ensures
        distinct_names(final(t)@),
        table_entry(final(t)@, name@) == Some(idx),
        forall|n: Seq<char>| n != name@ ==> table_entry(final(t)@, n) == table_entry(old(t)@, n),
{
    let ghost before = t@;
    match find_entry(t, &name) {
        Some(i) => {
            let ghost old_name = t@[i as int].0;
            t.set(i, (name, idx));
            assert(t@[i as int].0@ == before[i as int].0@);
            assert forall|n: Seq<char>| n != name@ implies table_entry(t@, n) == table_entry(before, n) by {
                if exists|k: int| 0 <= k < t@.len() && (#[trigger] t@[k]).0@ == n {
                    let k = choose|k: int| 0 <= k < t@.len() && (#[trigger] t@[k]).0@ == n;
                    assert(k != i);
                    assert(before[k] == t@[k]);
                    let k2 = choose|k2: int| 0 <= k2 < before.len() && (#[trigger] before[k2]).0@ == n;
                    assert(k2 != i);
                    assert(before[k2] == t@[k2]);
                }
                if exists|k: int| 0 <= k < before.len() && (#[trigger] before[k]).0@ == n {
                    let k = choose|k: int| 0 <= k < before.len() && (#[trigger] before[k]).0@ == n;
                    assert(k != i);
                    assert(before[k] == t@[k]);
                }
            }
            assert(t@[i as int].0@ == name@);
        },
        None => {
            t.push((name, idx));
            let ghost last: int = t@.len() - 1;
            assert(t@[last].0@ == name@);
            assert forall|n: Seq<char>| n != name@ implies table_entry(t@, n) == table_entry(before, n) by {
                if exists|k: int| 0 <= k < t@.len() && (#[trigger] t@[k]).0@ == n {
                    let k = choose|k: int| 0 <= k < t@.len() && (#[trigger] t@[k]).0@ == n;
                    assert(k != last);
                    assert(before[k] == t@[k]);
                    let k2 = choose|k2: int| 0 <= k2 < before.len() && (#[trigger] before[k2]).0@ == n;
                    assert(before[k2] == t@[k2]);
                }
                if exists|k: int| 0 <= k < before.len() && (#[trigger] before[k]).0@ == n {
                    let k = choose|k: int| 0 <= k < before.len() && (#[trigger] before[k]).0@ == n;
                    assert(before[k] == t@[k]);
                }
            }
        },
    }
}

impl Router {
    /// No table names a route twice.
    #[verifier::type_invariant]
    spec fn distinct_tables(self) -> bool {
        &&& distinct_names(self.read_routes@)
        &&& distinct_names(self.write_routes@)
        &&& distinct_names(self.mcp_routes@)
    }

    /// The router made of the three tables.
    spec fn spec_from_tables(
        read_routes: Vec<(String, usize)>,
        write_routes: Vec<(String, usize)>,
        mcp_routes: Vec<(String, usize)>,
    ) -> Router {
        Router { read_routes, write_routes, mcp_routes }
    }

    /// The table of a kind.
    pub closed spec fn table(&self, kind: RouteKind) -> Seq<(String, usize)> {
        match kind {
            RouteKind::Read => self.read_routes@,
            RouteKind::Write => self.write_routes@,
            RouteKind::Mcp => self.mcp_routes@,
        }
    }

    /// The handler index that serves `name` in table `kind`.
    pub open spec fn route(&self, kind: RouteKind, name: Seq<char>) -> Option<usize> {
        table_entry(self.table(kind), name)
    }

    /// Whether the tables route exactly as the handler list `routes` says.
    pub open spec fn routes_as(&self, routes: Seq<(Seq<char>, RouteKind)>) -> bool {
        forall|kind: RouteKind, name: Seq<char>|
            #![trigger self.route(kind, name)]
            match last_route(routes, kind, name) {
                Some(i) => self.route(kind, name) == Some(i as usize),
                None => self.route(kind, name).is_none(),
            }
    }

    /// Builds the route tables from the registered handlers: each handler goes to the
    /// table of its kind under its name, a later handler replacing an earlier one of the
    /// same name and kind.
    pub fn from_handlers<F>(handlers: &Vec<Handler<F>>) -> (r: Router)
        ensures
            r.routes_as(handler_routes(handlers@)),
    {
        let mut read_routes: Vec<(String, usize)> = Vec::new();
        let mut write_routes: Vec<(String, usize)> = Vec::new();
        let mut mcp_routes: Vec<(String, usize)> = Vec::new();
        let mut i: usize = 0;
        while i < handlers.len()
            invariant
                i <= handlers@.len(),
                distinct_names(read_routes@),
                distinct_names(write_routes@),
                distinct_names(mcp_routes@),
                Router::spec_from_tables(read_routes, write_routes, mcp_routes).routes_as(
                    handler_routes(handlers@).take(i as int),
                ),
            decreases handlers@.len() - i,
        {
            let ghost before = Router::spec_from_tables(read_routes, write_routes, mcp_routes);
            let ghost prev = handler_routes(handlers@).take(i as int);
            let ghost next = handler_routes(handlers@).take(i + 1);
            let h = &handlers[i];
            let name = h.name.to_owned();
            let kind = route_kind(h.is_write, h.is_mcp);
            assert(next.drop_last() =~= prev);
            assert(next.last() == (name@, kind));
            match kind {
                RouteKind::Read => set_entry(&mut read_routes, name, i),
                RouteKind::Write => set_entry(&mut write_routes, name, i),
                RouteKind::Mcp => set_entry(&mut mcp_routes, name, i),
            }
            let ghost router = Router::spec_from_tables(read_routes, write_routes, mcp_routes);
            assert forall|k: RouteKind, n: Seq<char>| #![trigger router.route(k, n)]
                match last_route(next, k, n) {
                    Some(j) => router.route(k, n) == Some(j as usize),
                    None => router.route(k, n).is_none(),
                } by {
                if (n, k) == (name@, kind) {
                    assert(last_route(next, k, n) == Some(i as int));
                } else {
                    assert(last_route(next, k, n) == last_route(prev, k, n));
                    assert(before.route(k, n) == router.route(k, n));
                    assert(match last_route(prev, k, n) {
                        Some(j) => before.route(k, n) == Some(j as usize),
                        None => before.route(k, n).is_none(),
                    });
                }
            }
            i = i + 1;
        }
        assert(handler_routes(handlers@).take(handlers@.len() as int) =~= handler_routes(handlers@));
        Router { read_routes, write_routes, mcp_routes }
    }

    /// The index of the handler that serves requests of kind `t` named `name`.
    pub fn lookup(&self, t: RequestType, name: &str) -> (r: Option<usize>)
        ensures
            r == self.route(spec_table_for(t), name@),
    {
        proof {
            use_type_invariant(self);
        }
        let wanted = name.to_owned();
        let table = match table_for(t) {
            RouteKind::Read => &self.read_routes,
            RouteKind::Write => &self.write_routes,
            RouteKind::Mcp => &self.mcp_routes,
        };
        match find_entry(table, &wanted) {
            Some(i) => {
                proof {
                    let c = choose|c: int|
                        0 <= c < table@.len() && (#[trigger] table@[c]).0@ == wanted@;
                    if c != i {
                        assert(table@[c].0@ != table@[i as int].0@);
                    }
                }
                Some(table[i].1)
            },
            None => None,
        }
    }

    /// Picks the handler for a query request: the handler of the request's name in the
    /// table of its kind, or a `NotFound` status carrying the name.
    pub fn resolve(&self, request: &QueryRequest) -> (r: Result<usize, GrpcStatus>)
        ensures
            match self.route(spec_table_for(RequestType::spec_from_i32(request.request_type)), request.query@) {
                Some(i) => r == Ok::<usize, GrpcStatus>(i),
                None => r matches Err(st) && st.code == GrpcCode::NotFound && st.message@ == request.query@,
            },
    {
        let t = request.request_type();
        match self.lookup(t, request.query.as_str()) {
            Some(i) => Ok(i),
            None => Err(GrpcStatus::new(GrpcCode::NotFound, request.query.clone())),
        }
    }
}

/// The answer to a query whose handler ran: its data with status 200, or an `Internal`
/// status carrying the handler's error message.
pub fn finish_query(result: Result<Vec<u8>, String>) -> (r: Result<QueryResponse, GrpcStatus>)
    ensures
        match result {
            Ok(data) => r == Ok::<QueryResponse, GrpcStatus>(QueryResponse { data, status: 200 }),
            Err(e) => r matches Err(st) && st.code == GrpcCode::Internal && st.message == e,
        },
{
    match result {
        Ok(data) => Ok(QueryResponse { data, status: 200 }),
        Err(e) => Err(GrpcStatus::new(GrpcCode::Internal, e)),
    }
}

/// A name is served in a table by the last handler registered with that name in that
/// table; where no handler of that name belongs to the table, the name is not served
/// there (a write handler is never reached through the read table, and so on).
pub proof fn lemma_last_registered_serves(
    routes: Seq<(Seq<char>, RouteKind)>,
    kind: RouteKind,
    name: Seq<char>,
)
    ensures
        match last_route(routes, kind, name) {
            Some(i) => 0 <= i < routes.len() && routes[i] == (name, kind) && forall|j: int|
                i < j < routes.len() ==> routes[j] != (name, kind),
            None => forall|j: int| 0 <= j < routes.len() ==> routes[j] != (name, kind),
        },
    decreases routes.len(),
{
    if routes.len() > 0 {
        lemma_last_registered_serves(routes.drop_last(), kind, name);
        let p = routes.drop_last();
        assert forall|j: int| 0 <= j < p.len() implies p[j] == routes[j] by {}
    }
}

/// The table of a handler, and so whether it can be reached by reads, writes or MCP
/// requests, follows from its flags alone: a write handler that is also an MCP handler
/// is a write handler.
pub proof fn lemma_handler_table(is_write: bool, is_mcp: bool)
    ensures
        is_write ==> spec_route_kind(is_write, is_mcp) == RouteKind::Write,
        !is_write && is_mcp ==> spec_route_kind(is_write, is_mcp) == RouteKind::Mcp,
        !is_write && !is_mcp ==> spec_route_kind(is_write, is_mcp) == RouteKind::Read,
        spec_table_for(RequestType::Read) == RouteKind::Read,
        spec_table_for(RequestType::Write) == RouteKind::Write,
        spec_table_for(RequestType::Mcp) == RouteKind::Mcp,
{
}

} // verus!
