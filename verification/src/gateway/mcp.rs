//! MCP (Model Context Protocol) connection state.
//!
//! The state of a connection is kept in Redis under a key derived from the
//! connection's id, so that gateway nodes stay stateless while a client builds up its
//! chain of query steps across requests.
use vstd::prelude::*;

verus! {

/// Whether an MCP traversal step follows graph edges to nodes or to vectors.
#[derive(Debug, Clone, Copy, PartialEq, Eq, Structural)]
pub enum EdgeType {
    Node,
    Vec,
}

/// Sort order of an MCP `order_by` step.
#[derive(Debug, Clone, Copy, PartialEq, Eq, Structural)]
pub enum Order {
    Asc,
    Desc,
}

/// Comparison operator of an MCP property filter.
#[derive(Debug, Clone, Copy, PartialEq, Eq, Structural)]
pub enum Operator {
    Eq,
    Neq,
    Gt,
    Lt,
    Gte,
    Lte,
}

/// The Redis key under which a connection's state is stored: `mcp:` and the id.
pub open spec fn spec_state_key(connection_id: Seq<char>) -> Seq<char> {
    seq!['m', 'c', 'p', ':'] + connection_id
}

/// The Redis key under which a connection's state is stored.
pub fn state_key(connection_id: &str) -> (r: String)
    ensures
        r@ == spec_state_key(connection_id@),
        r@.len() == connection_id@.len() + 4,
        r@.take(4) == seq!['m', 'c', 'p', ':'],
        r@.skip(4) == connection_id@,
{
    let prefix = "mcp:";
    proof {
        reveal_strlit("mcp:");
    }
    assert(prefix@ =~= seq!['m', 'c', 'p', ':']);
    let r = prefix.to_owned().concat(connection_id);
    proof {
        lemma_state_key_holds_whole_id(connection_id@, connection_id@);
    }
    r
}

/// A key is `mcp:` followed by the whole connection id, so the id can be read back from
/// the key, and two connections share a key only where they share an id.
pub proof fn lemma_state_key_holds_whole_id(a: Seq<char>, b: Seq<char>)
    ensures
        spec_state_key(a).len() == a.len() + 4,
        spec_state_key(a).take(4) == seq!['m', 'c', 'p', ':'],
        spec_state_key(a).skip(4) == a,
        spec_state_key(a) == spec_state_key(b) ==> a == b,
{
    assert(spec_state_key(a).take(4) =~= seq!['m', 'c', 'p', ':']);
    assert(spec_state_key(a).skip(4) =~= a);
    assert(spec_state_key(b).skip(4) =~= b);
}

/// The state of an MCP connection: the chain of query steps built so far, and the
/// position reached in its results.
#[derive(Debug, Clone)]
pub struct McpConnectionState<S> {
    pub connection_id: String,
    pub steps: Vec<S>,
    pub current_position: usize,
}

impl<S> McpConnectionState<S> {
    /// A connection with no steps yet.
    pub fn new(connection_id: String) -> (r: Self)
        ensures
            r.connection_id == connection_id,
            r.steps@.len() == 0,
            r.current_position == 0,
    {
        McpConnectionState { connection_id, steps: Vec::new(), current_position: 0 }
    }

    /// Appends a step to the chain; the position starts over, since the chain changed.
    pub fn add_step(&mut self, step: S)
        ensures
            final(self).connection_id == old(self).connection_id,
            final(self).steps@ == old(self).steps@.push(step),
            final(self).current_position == 0,
    {
        self.steps.push(step);
        self.current_position = 0;
    }

    /// The state of a connection: the stored one where there is one, else a fresh one.
    pub fn resume(connection_id: String, stored: Option<Self>) -> (r: Self)
        ensures
            match stored {
                Some(s) => r == s,
                None => r.connection_id == connection_id && r.steps@.len() == 0
                    && r.current_position == 0,
            },
    {
        match stored {
            Some(s) => s,
            None => McpConnectionState::new(connection_id),
        }
    }
}

} // verus!
