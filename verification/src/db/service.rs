//! The backend service: a database and the handlers registered for it.
use vstd::prelude::*;

use crate::db::router::{handler_routes, lemma_last_registered_serves, spec_table_for, Handler, Router, last_route};
use crate::error::{GrpcCode, GrpcStatus};
use crate::proto::{QueryRequest, RequestType};

verus! {

/// Database service: routes each query to the handler registered for its name, in the
/// table of the query's kind (its request type).
pub struct DbService<DB, F> {
    db: DB,
    handlers: Vec<Handler<F>>,
    router: Router,
}

impl<DB, F> DbService<DB, F> {
    /// The route tables route as the handler list says.
    #[verifier::type_invariant]
    spec fn tables_match_handlers(self) -> bool {
        self.router.routes_as(handler_routes(self.handlers@))
    }

    /// The registered handlers.
    pub closed spec fn registered(&self) -> Seq<Handler<F>> {
        self.handlers@
    }

    /// The database the handlers run against.
    pub closed spec fn database(&self) -> DB {
        self.db
    }

    /// A service over `db` serving the given handlers.
    pub fn new(db: DB, handlers: Vec<Handler<F>>) -> (r: Self)
        ensures
            r.registered() == handlers@,
            r.database() == db,
    {
        let router = Router::from_handlers(&handlers);
        DbService { db, handlers, router }
    }

    /// The database the handlers run against.
    pub fn db(&self) -> (r: &DB)
        ensures
            *r == self.database(),
    {
        &self.db
    }

    /// The handler that serves a query request: the last registered handler whose name
    /// is the query's and whose table is that of the request's kind; a `NotFound` status
    /// carrying the query's name where there is none.
    pub fn dispatch(&self, request: &QueryRequest) -> (r: Result<&Handler<F>, GrpcStatus>)
        ensures
            match last_route(
                handler_routes(self.registered()),
                spec_table_for(RequestType::spec_from_i32(request.request_type)),
                request.query@,
            ) {
                Some(i) => r matches Ok(h) && *h == self.registered()[i],
                None => r matches Err(st) && st.code == GrpcCode::NotFound && st.message@
                    == request.query@,
            },
    {
        let ghost kind = spec_table_for(RequestType::spec_from_i32(request.request_type));
        proof {
            use_type_invariant(self);
            lemma_last_registered_serves(handler_routes(self.handlers@), kind, request.query@);
        }
        match self.router.resolve(request) {
            Ok(i) => {
                let n = self.handlers.len();
                proof {
                    let j = last_route(handler_routes(self.handlers@), kind, request.query@).unwrap();
                    assert(0 <= j < n);
                }
                Ok(&self.handlers[i])
            },
            Err(st) => Err(st),
        }
    }
}

} // verus!
