//! The buffer that holds requests while the backend is unavailable.
//!
//! Requests are kept on the `lockfree` crate's stack, so the most recent request is
//! served first once the backend recovers; the buffer's operations take it by `&mut`.
//! Each buffered request carries the sender half of a one-shot channel on which its
//! answer is delivered, and `enqueue` hands out the receiving half.
use vstd::prelude::*;
use core::time::Duration;
use lockfree::stack::Stack;
use std::time::Instant;
use tokio::sync::oneshot::{Receiver, Sender};

use crate::error::GatewayError;
use crate::proto::{QueryRequest, QueryResponse};

verus! {

/// A lock-free stack.
#[verifier::external_type_specification]
#[verifier::external_body]
#[verifier::reject_recursive_types(T)]
pub struct ExStack<T>(Stack<T>);

/// The sending half of a one-shot channel.
#[verifier::external_type_specification]
#[verifier::external_body]
#[verifier::reject_recursive_types(T)]
pub struct ExSender<T>(Sender<T>);

/// The receiving half of a one-shot channel.
#[verifier::external_type_specification]
#[verifier::external_body]
#[verifier::reject_recursive_types(T)]
pub struct ExReceiver<T>(Receiver<T>);

/// The error of a one-shot receiver whose sender went away. No function here names it,
/// but Verus reads the receiver's `Future` impl, whose output holds it, and refuses the
/// receiver type without this declaration.
#[verifier::external_type_specification]
#[verifier::external_body]
pub struct ExRecvError(tokio::sync::oneshot::error::RecvError);

/// A point in time.
#[verifier::external_type_specification]
#[verifier::external_body]
pub struct ExInstant(Instant);

/// The answer that a buffered request eventually gets.
pub type BufferedResponse = Result<QueryResponse, GatewayError>;

/// A request that waits in the buffer for the backend to recover.
pub struct BufferedRequest {
    pub(crate) request: QueryRequest,
    pub(crate) enqueued_at: Instant,
    response_tx: Sender<BufferedResponse>,
}

/// The requests on a stack, from the bottom (pushed first) to the top (pushed last).
pub uninterp spec fn stacked(s: Stack<BufferedRequest>) -> Seq<BufferedRequest>;

/// Calls `Stack::new`; claims that the new stack is empty.
#[verifier::external_body]
fn new_stack() -> (s: Stack<BufferedRequest>)
    ensures
        stacked(s) == Seq::<BufferedRequest>::empty(),
{
    Stack::new()
}

/// Calls `Stack::push`; claims that the value is put on top of the stack.
#[verifier::external_body]
fn push_on(s: &mut Stack<BufferedRequest>, r: BufferedRequest)
    ensures
        stacked(*final(s)) == stacked(*old(s)).push(r),
{
    s.push(r)
}

/// Calls `Stack::pop`; claims that it takes the value on top of the stack, and gives
/// `None` and leaves the stack as it is where the stack is empty.
#[verifier::external_body]
fn pop_from(s: &mut Stack<BufferedRequest>) -> (r: Option<BufferedRequest>)
    ensures
        stacked(*old(s)).len() == 0 ==> r.is_none() && stacked(*final(s)) == stacked(*old(s)),
        stacked(*old(s)).len() > 0 ==> r == Some(stacked(*old(s)).last()) && stacked(*final(s))
            == stacked(*old(s)).drop_last(),
{
    s.pop()
}

/// Whether a sender and a receiver are the two halves of one channel, so that what
/// the sender sends is what the receiver receives.
pub uninterp spec fn same_channel(tx: Sender<BufferedResponse>, rx: Receiver<BufferedResponse>) -> bool;

/// Calls `tokio::sync::oneshot::channel`; claims that the two halves it gives belong to
/// one channel.
#[verifier::external_body]
fn response_channel() -> (r: (Sender<BufferedResponse>, Receiver<BufferedResponse>))
    ensures
        same_channel(r.0, r.1),
{
    tokio::sync::oneshot::channel()
}

/// Whether the receiving half of the sender's channel was closed (dropped, or closed by
/// its owner) before the sender was used up. A sender sends at most once, so this is a
/// fact about the one use of each sender; which way it goes is up to the receiving task.
pub uninterp spec fn receiver_dropped(tx: Sender<BufferedResponse>) -> bool;

/// Whether `v` was placed in the sender's channel, for its receiver to take.
pub uninterp spec fn delivered(tx: Sender<BufferedResponse>, v: BufferedResponse) -> bool;

/// Calls `oneshot::Sender::send`; claims that it succeeds exactly where the receiver had
/// not closed its half, that on success the value was placed in the channel, and that on
/// failure the value comes back unchanged. That the receiver then takes the value is not
/// claimed: it may still close its half without reading.
#[verifier::external_body]
fn send_on(tx: Sender<BufferedResponse>, v: BufferedResponse) -> (r: Result<(), BufferedResponse>)
    ensures
        r is Ok <==> !receiver_dropped(tx),
        r is Ok ==> delivered(tx, v),
        r matches Err(back) ==> back == v,
{
    tx.send(v)
}

/// Calls `oneshot::Sender::is_closed`; claims that where it answers `true` the receiver
/// has closed its half, so that the sender's send will fail. An answer of `false` says
/// nothing of the send, since the receiver may close its half later.
#[verifier::external_body]
fn sender_closed(tx: &Sender<BufferedResponse>) -> (r: bool)
    ensures
        r ==> receiver_dropped(*tx),
{
    tx.is_closed()
}

/// Calls `Instant::now`; the time is not known here, so nothing is claimed of it.
#[verifier::external_body]
fn now() -> Instant {
    Instant::now()
}

impl BufferedRequest {
    /// The request that waits.
    pub closed spec fn waiting_request(&self) -> QueryRequest {
        self.request
    }

    /// When the request entered the buffer.
    pub closed spec fn entered_at(&self) -> Instant {
        self.enqueued_at
    }

    /// The sender on which the request's answer goes out.
    pub closed spec fn answer_sender(&self) -> Sender<BufferedResponse> {
        self.response_tx
    }

    /// Sends the answer to the waiting handler, on the request's own sender
    /// (`answer_sender`): it succeeds exactly where the handler had not gone away, and
    /// then the answer is in the channel whose receiver `enqueue` handed out. Where the
    /// handler is gone, the answer comes back unchanged.
    pub fn respond(self, response: BufferedResponse) -> (r: Result<(), BufferedResponse>)
        ensures
            r is Ok <==> !receiver_dropped(self.answer_sender()),
            r is Ok ==> delivered(self.answer_sender(), response),
            r matches Err(back) ==> back == response,
    {
        send_on(self.response_tx, response)
    }

    /// Whether the waiting handler is gone (its client disconnected). Where it answers
    /// `true`, the handler closed its half of the channel and an answer would not reach
    /// it; `false` does not promise that it will, since the handler may still go away.
    pub fn is_cancelled(&self) -> (r: bool)
        ensures
            r ==> receiver_dropped(self.answer_sender()),
    {
        sender_closed(&self.response_tx)
    }

    /// The request that waits.
    pub fn request(&self) -> (r: &QueryRequest)
        ensures
            *r == self.waiting_request(),
    {
        &self.request
    }

    /// When the request entered the buffer.
    pub fn enqueued_at(&self) -> (r: Instant)
        ensures
            r == self.entered_at(),
    {
        self.enqueued_at
    }
}

/// The buffer's contents and limits.
pub struct BufferView {
    /// The waiting requests, the oldest first.
    pub items: Seq<BufferedRequest>,
    pub max_size: Option<usize>,
    pub max_duration: Option<Duration>,
}

impl BufferView {
    /// Whether the buffer holds as many requests as it may.
    pub open spec fn is_full(self) -> bool {
        match self.max_size {
            Some(m) => self.items.len() >= m,
            None => false,
        }
    }

    /// Whether the buffer holds no more requests than its limit allows.
    pub open spec fn within_limit(self) -> bool {
        match self.max_size {
            Some(m) => self.items.len() <= m,
            None => true,
        }
    }

    /// The buffer after `r` was added on top.
    pub open spec fn pushed(self, r: BufferedRequest) -> BufferView {
        BufferView { items: self.items.push(r), ..self }
    }

    /// The request that `dequeue` gives: the most recent one.
    pub open spec fn top(self) -> Option<BufferedRequest> {
        if self.items.len() == 0 {
            None
        } else {
            Some(self.items.last())
        }
    }

    /// The buffer after `dequeue`.
    pub open spec fn popped(self) -> BufferView {
        if self.items.len() == 0 {
            self
        } else {
            BufferView { items: self.items.drop_last(), ..self }
        }
    }
}

/// A stack of waiting requests and the number of requests on it.
struct CountedStack {
    items: Stack<BufferedRequest>,
    len: usize,
}

impl CountedStack {
    /// An empty stack.
    fn empty() -> (r: CountedStack)
        ensures
            stacked(r.items).len() == 0,
            r.len == 0,
    {
        CountedStack { items: new_stack(), len: 0 }
    }
}

/// A bounded buffer of requests, served most-recent-first.
pub struct Buffer {
    stack: CountedStack,
    max_size: Option<usize>,
    max_duration: Option<Duration>,
}

impl View for Buffer {
    type V = BufferView;

    closed spec fn view(&self) -> BufferView {
        BufferView {
            items: stacked(self.stack.items),
            max_size: self.max_size,
            max_duration: self.max_duration,
        }
    }
}

impl Buffer {
    /// The buffer's length counter agrees with what its stack holds.
    #[verifier::type_invariant]
    spec fn counted(self) -> bool {
        self.stack.len == stacked(self.stack.items).len()
    }

    /// An empty buffer without limits.
    pub fn new() -> (r: Buffer)
        ensures
            r@.items.len() == 0,
            r@.max_size.is_none(),
            r@.max_duration.is_none(),
    {
        Buffer { stack: CountedStack::empty(), max_size: None, max_duration: None }
    }

    /// The buffer with at most `max_size` waiting requests.
    pub fn max_size(self, max_size: usize) -> (r: Buffer)
        ensures
            r@ == (BufferView { max_size: Some(max_size), ..self@ }),
    {
        proof {
            use_type_invariant(&self);
        }
        Buffer { max_size: Some(max_size), ..self }
    }

    /// The buffer with the given longest wait.
    pub fn max_duration(self, max_duration: Duration) -> (r: Buffer)
        ensures
            r@ == (BufferView { max_duration: Some(max_duration), ..self@ }),
    {
        proof {
            use_type_invariant(&self);
        }
        Buffer { max_duration: Some(max_duration), ..self }
    }

    /// The longest wait that the buffer was given.
    pub fn max_duration_limit(&self) -> (r: Option<Duration>)
        ensures
            r == self@.max_duration,
    {
        self.max_duration
    }

    /// The most requests that the buffer may hold.
    pub fn max_size_limit(&self) -> (r: Option<usize>)
        ensures
            r == self@.max_size,
    {
        self.max_size
    }

    /// Puts a request in the buffer and returns the receiver on which its answer will
    /// arrive, the other half of the buffered request's `answer_sender`; refuses with
    /// `BufferFull` where the buffer holds as many requests as it may.
    pub fn enqueue(&mut self, request: QueryRequest) -> (r: Result<
        Receiver<BufferedResponse>,
        GatewayError,
    >)
        requires
            old(self)@.items.len() < usize::MAX,
        ensures
            old(self)@.is_full() ==> (r matches Err(GatewayError::BufferFull)) && final(self)@ == old(
                self,
            )@,
            !old(self)@.is_full() ==> (r matches Ok(rx) && exists|b: BufferedRequest|
                b.waiting_request() == request && same_channel(b.answer_sender(), rx)
                    && final(self)@ == #[trigger] old(self)@.pushed(b)),
    {
        proof {
            use_type_invariant(&*self);
        }
        if let Some(max) = self.max_size {
            if self.stack.len >= max {
                return Err(GatewayError::BufferFull);
            }
        }
        let (tx, rx) = response_channel();
        let item = BufferedRequest { request, enqueued_at: now(), response_tx: tx };
        let ghost b = item;
        let mut stack = CountedStack::empty();
        std::mem::swap(&mut stack, &mut self.stack);
        push_on(&mut stack.items, item);
        stack.len = stack.len + 1;
        std::mem::swap(&mut stack, &mut self.stack);
        assert(self@ == old(self)@.pushed(b));
        Ok(rx)
    }

    /// Takes the most recent request out of the buffer; `None` where it is empty.
    pub fn dequeue(&mut self) -> (r: Option<BufferedRequest>)
        ensures
            r == old(self)@.top(),
            final(self)@ == old(self)@.popped(),
    {
        proof {
            use_type_invariant(&*self);
        }
        let mut stack = CountedStack::empty();
        std::mem::swap(&mut stack, &mut self.stack);
        let item = pop_from(&mut stack.items);
        if item.is_some() {
            stack.len = stack.len - 1;
        }
        std::mem::swap(&mut stack, &mut self.stack);
        proof {
            if old(self)@.items.len() > 0 {
                assert(self@ == old(self)@.popped());
            }
        }
        item
    }

    /// The number of waiting requests.
    pub fn len(&self) -> (r: usize)
        ensures
            r == self@.items.len(),
    {
        proof {
            use_type_invariant(self);
        }
        self.stack.len
    }

    /// Whether no request waits.
    pub fn is_empty(&self) -> (r: bool)
        ensures
            r == (self@.items.len() == 0),
    {
        proof {
            use_type_invariant(self);
        }
        self.stack.len == 0
    }
}

/// The most requests that the gateway's buffer holds.
pub const GATEWAY_BUFFER_SIZE: usize = 1000;

/// The longest wait, in milliseconds, that the gateway's buffer is configured with.
pub const GATEWAY_BUFFER_WAIT_MS: u64 = 1000;

/// The buffer that the gateway starts with: empty, holding at most
/// `GATEWAY_BUFFER_SIZE` requests, with a longest wait of `GATEWAY_BUFFER_WAIT_MS`.
pub fn gateway_buffer() -> (r: Buffer)
    ensures
        r@.items.len() == 0,
        r@.max_size == Some(GATEWAY_BUFFER_SIZE),
        r@.max_duration == Some(crate::config::millis_duration(GATEWAY_BUFFER_WAIT_MS)),
{
    Buffer::new().max_duration(crate::config::duration_from_millis(GATEWAY_BUFFER_WAIT_MS)).max_size(
        GATEWAY_BUFFER_SIZE,
    )
}

impl Default for Buffer {
    fn default() -> (r: Buffer)
        ensures
            r@.items.len() == 0,
            r@.max_size.is_none(),
            r@.max_duration.is_none(),
    {
        Buffer::new()
    }
}

/// The last request put in is the first to come out, and taking it out leaves the
/// buffer as it was before it went in.
pub proof fn lemma_last_in_first_out(v: BufferView, b: BufferedRequest)
    ensures
        v.pushed(b).top() == Some(b),
        v.pushed(b).popped() == v,
{
    assert(v.pushed(b).popped().items =~= v.items);
}

/// Whether `ans` was placed in the channel whose receiving half is `rx`.
pub open spec fn reaches(rx: Receiver<BufferedResponse>, ans: BufferedResponse) -> bool {
    exists|tx: Sender<BufferedResponse>| same_channel(tx, rx) && delivered(tx, ans)
}

/// The request that comes out of the buffer right after one went in is that request,
/// so an answer that `respond` sends for it reaches the receiver that `enqueue` returned.
pub proof fn lemma_answer_reaches_enqueuer(
    v: BufferView,
    b: BufferedRequest,
    rx: Receiver<BufferedResponse>,
    ans: BufferedResponse,
)
    requires
        same_channel(b.answer_sender(), rx),
    ensures
        v.pushed(b).top() matches Some(t) && same_channel(t.answer_sender(), rx) && (delivered(
            t.answer_sender(),
            ans,
        ) ==> reaches(rx, ans)),
{
    assert(v.pushed(b).items.last() == b);
}

/// A buffer that holds no more requests than its limit still holds no more after a
/// request is accepted: `enqueue` accepts only where the buffer is not full.
pub proof fn lemma_enqueue_keeps_limit(v: BufferView, b: BufferedRequest)
    requires
        v.within_limit(),
        !v.is_full(),
    ensures
        v.pushed(b).within_limit(),
{
}

/// Each accepted request adds one to the buffer's length, and taking one out of a
/// non-empty buffer removes one.
pub proof fn lemma_length_tracks_requests(v: BufferView, b: BufferedRequest)
    ensures
        v.pushed(b).items.len() == v.items.len() + 1,
        v.items.len() > 0 ==> v.popped().items.len() == v.items.len() - 1,
        v.items.len() == 0 ==> v.popped() == v && v.top().is_none(),
{
}

} // verus!
