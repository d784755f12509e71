//! Admission of connections: at most two accepted connections wait in a
//! first-in first-out queue, a connection that finds the queue full is
//! dropped, and at most one connection is served at a time.
//!
//! Connections are known here by tickets; whoever holds the sockets keeps
//! them by ticket and acts on what these transitions return.
use vstd::prelude::*;

verus! {

/// How many accepted connections may wait for service.
pub const MAX_CONCURRENT_REQUESTS: usize = 2;

/// A bounded channel of tickets that holds both of its ends, so that it is
/// never closed while it exists.
#[verifier::external_body]
pub struct TicketQueue {
    sender: async_channel::Sender<u64>,
    receiver: async_channel::Receiver<u64>,
}

/// The tickets in the channel, oldest first.
pub uninterp spec fn queued_tickets(q: TicketQueue) -> Seq<u64>;

/// The bound the channel was made with.
pub uninterp spec fn queue_capacity(q: TicketQueue) -> nat;

/// Relies on `async_channel::bounded`: an empty channel that holds at most
/// `cap` messages; it panics on a zero capacity.
#[verifier::external_body]
fn new_ticket_queue(cap: usize) -> (r: TicketQueue)
    requires
        cap > 0,
    ensures
        queued_tickets(r) == Seq::<u64>::empty(),
        queue_capacity(r) == cap,
{
    let (sender, receiver) = async_channel::bounded(cap);
    TicketQueue { sender, receiver }
}

/// Relies on `async_channel::Sender::try_send`: it appends the message unless
/// the channel is full (or closed, which this one never is), without waiting.
#[verifier::external_body]
fn try_enqueue(q: &mut TicketQueue, ticket: u64) -> (r: bool)
    ensures
        queue_capacity(*final(q)) == queue_capacity(*old(q)),
        r == (queued_tickets(*old(q)).len() < queue_capacity(*old(q))),
        r ==> queued_tickets(*final(q)) == queued_tickets(*old(q)).push(ticket),
        !r ==> queued_tickets(*final(q)) == queued_tickets(*old(q)),
{
    match q.sender.try_send(ticket) {
        Ok(()) => true,
        Err(_) => false,
    }
}

/// Relies on `async_channel::Receiver::try_recv`: it removes and returns the
/// oldest message, or nothing when the channel is empty, without waiting.
#[verifier::external_body]
fn try_dequeue(q: &mut TicketQueue) -> (r: Option<u64>)
    ensures
        queue_capacity(*final(q)) == queue_capacity(*old(q)),
        queued_tickets(*old(q)).len() == 0 ==> r is None && queued_tickets(*final(q)) == queued_tickets(
            *old(q),
        ),
        queued_tickets(*old(q)).len() > 0 ==> r == Some(queued_tickets(*old(q))[0])
            && queued_tickets(*final(q)) == queued_tickets(*old(q)).drop_first(),
{
    match q.receiver.try_recv() {
        Ok(ticket) => Some(ticket),
        Err(_) => None,
    }
}

/// The state of admission: the waiting tickets, oldest first; the ticket in
/// service, if any; and the ticket the next accepted connection gets.
pub ghost struct AdmissionState {
    pub pending: Seq<u64>,
    pub active: Option<u64>,
    pub next_ticket: u64,
}

/// The waiting tickets are at most `MAX_CONCURRENT_REQUESTS`, increasing and
/// all issued, so no two connections share one.
pub open spec fn state_wf(s: AdmissionState) -> bool {
    &&& s.pending.len() <= MAX_CONCURRENT_REQUESTS
    &&& forall|i: int, j: int| 0 <= i < j < s.pending.len() ==> s.pending[i] < s.pending[j]
    &&& forall|i: int| 0 <= i < s.pending.len() ==> #[trigger] s.pending[i] < s.next_ticket
    &&& s.active matches Some(t) ==> t < s.next_ticket && forall|i: int|
        0 <= i < s.pending.len() ==> t < #[trigger] s.pending[i]
}

/// A connection was accepted: it waits with a fresh ticket, or is dropped
/// (`None`) when the queue is full or the tickets are used up.
pub open spec fn accept_step(s: AdmissionState) -> (AdmissionState, Option<u64>) {
    if s.pending.len() < MAX_CONCURRENT_REQUESTS && s.next_ticket < u64::MAX {
        (
            AdmissionState {
                pending: s.pending.push(s.next_ticket),
                active: s.active,
                next_ticket: (s.next_ticket + 1) as u64,
            },
            Some(s.next_ticket),
        )
    } else {
        (s, None)
    }
}

/// Service may begin: when nothing is in service, the oldest waiting ticket
/// is taken into service and returned.
pub open spec fn start_step(s: AdmissionState) -> (AdmissionState, Option<u64>) {
    if s.active is None && s.pending.len() > 0 {
        (
            AdmissionState {
                pending: s.pending.drop_first(),
                active: Some(s.pending[0]),
                next_ticket: s.next_ticket,
            },
            Some(s.pending[0]),
        )
    } else {
        (s, None)
    }
}

/// The connection in service has been served to completion.
pub open spec fn finish_step(s: AdmissionState) -> AdmissionState {
    AdmissionState { pending: s.pending, active: None, next_ticket: s.next_ticket }
}

/// The admission controller's bookkeeping.
pub struct Admission {
    queue: TicketQueue,
    active: Option<u64>,
    next_ticket: u64,
}

impl View for Admission {
    type V = AdmissionState;

    closed spec fn view(&self) -> AdmissionState {
        AdmissionState {
            pending: queued_tickets(self.queue),
            active: self.active,
            next_ticket: self.next_ticket,
        }
    }
}

impl Admission {
    pub closed spec fn wf(&self) -> bool {
        &&& queue_capacity(self.queue) == MAX_CONCURRENT_REQUESTS
        &&& state_wf(self@)
    }

    /// Nothing waiting, nothing in service.
    pub fn new() -> (r: Admission)
        ensures
            r.wf(),
            r@.pending == Seq::<u64>::empty(),
            r@.active is None,
            r@.next_ticket == 0,
    {
        Admission { queue: new_ticket_queue(MAX_CONCURRENT_REQUESTS), active: None, next_ticket: 0 }
    }

    /// Admits an accepted connection, returning its ticket, or `None` when it
    /// must be dropped. Never waits.
    pub fn accept(&mut self) -> (r: Option<u64>)
        requires
            old(self).wf(),
        ensures
            final(self).wf(),
            (final(self)@, r) == accept_step(old(self)@),
    {
        proof {
            lemma_steps_preserve_wf(self@);
        }
        if self.next_ticket == u64::MAX {
            return None;
        }
        let ticket = self.next_ticket;
        if try_enqueue(&mut self.queue, ticket) {
            self.next_ticket = ticket + 1;
            Some(ticket)
        } else {
            None
        }
    }

    /// Takes the oldest waiting ticket into service, unless a connection is
    /// already in service or none is waiting.
    pub fn start_next(&mut self) -> (r: Option<u64>)
        requires
            old(self).wf(),
        ensures
            final(self).wf(),
            (final(self)@, r) == start_step(old(self)@),
    {
        proof {
            lemma_steps_preserve_wf(self@);
        }
        if self.active.is_some() {
            return None;
        }
        let r = try_dequeue(&mut self.queue);
        if r.is_some() {
            self.active = r;
        }
        r
    }

    /// Records that the connection in service was served to completion.
    pub fn finish(&mut self)
        requires
            old(self).wf(),
        ensures
            final(self).wf(),
            final(self)@ == finish_step(old(self)@),
    {
        proof {
            lemma_steps_preserve_wf(self@);
        }
        self.active = None;
    }

    /// The ticket in service, if any.
    pub fn active(&self) -> (r: Option<u64>)
        ensures
            r == self@.active,
    {
        self.active
    }
}

/// Every transition keeps the queue within its bound and its tickets
/// distinct, from every well-formed state.
pub proof fn lemma_steps_preserve_wf(s: AdmissionState)
    requires
        state_wf(s),
    ensures
        state_wf(accept_step(s).0),
        state_wf(start_step(s).0),
        state_wf(finish_step(s)),
        accept_step(s).0.pending.len() <= MAX_CONCURRENT_REQUESTS,
{
    let a = accept_step(s).0;
    if s.pending.len() < MAX_CONCURRENT_REQUESTS && s.next_ticket < u64::MAX {
        assert forall|i: int| 0 <= i < a.pending.len() implies #[trigger] a.pending[i] < a.next_ticket by {
            if i < s.pending.len() {
                assert(a.pending[i] == s.pending[i]);
            }
        }
    }
    let b = start_step(s).0;
    if s.active is None && s.pending.len() > 0 {
        assert forall|i: int| 0 <= i < b.pending.len() implies s.pending[0] < #[trigger] b.pending[i] by {
            assert(b.pending[i] == s.pending[i + 1]);
        }
        assert forall|i: int| 0 <= i < b.pending.len() implies #[trigger] b.pending[i] < b.next_ticket by {
            assert(b.pending[i] == s.pending[i + 1]);
        }
    }
}

/// A connection accepted while the queue holds its full two waiting
/// connections (whether or not one is in service) is dropped, and the state
/// is left as it was.
pub proof fn lemma_full_queue_drops(s: AdmissionState)
    requires
        state_wf(s),
        s.pending.len() == MAX_CONCURRENT_REQUESTS,
    ensures
        accept_step(s) == (s, None::<u64>),
{
}

/// While a connection is in service no other one is taken into service: at
/// most one connection is ever in service.
pub proof fn lemma_single_service(s: AdmissionState)
    requires
        s.active is Some,
    ensures
        start_step(s) == (s, None::<u64>),
        start_step(accept_step(s).0).1 is None,
{
}

/// Waiting connections are served in the order they were accepted: the
/// connection taken into service is the oldest one waiting, and one admitted
/// now waits behind all that already do.
pub proof fn lemma_first_in_first_out(s: AdmissionState)
    requires
        state_wf(s),
        s.active is None,
        s.pending.len() > 0,
    ensures
        start_step(s).1 == Some(s.pending[0]),
        accept_step(s).1 matches Some(t) ==> accept_step(s).0.pending == s.pending.push(t),
{
}

} // verus!
