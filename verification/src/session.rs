//! The bookkeeping of one connection to the server.
//!
//! A session hands out the ids of requests, remembers which requests still
//! wait for their answer, and which subscriptions are open. The socket and
//! the tasks that read and write it stand outside; they call in here to
//! decide where an answer or an event goes.

use vstd::prelude::*;
use vstd::arithmetic::div_mod::{lemma_fundamental_div_mod, lemma_fundamental_div_mod_converse, lemma_mod_pos_bound};
use std::collections::HashMap;
use tokio::sync::{mpsc, oneshot};

use crate::channel::{answer_channel, answers, event_channel, feeds};
use crate::types::response::{AuthResponse, OneShotResponse, Response, WSEvent};

verus! {

broadcast use vstd::std_specs::hash::group_hash_axioms;

/// How many events a subscription holds before its sender has to wait.
pub const SUBSCRIPTION_BUFFER: usize = 20;

/// The state of a session as the contracts speak of it.
pub struct SessionView {
    /// The id that the next request gets.
    pub last_sequence: u64,
    /// The open subscriptions, by the id of the request that opened them.
    pub subscriptions: Map<u64, mpsc::Sender<WSEvent>>,
    /// The requests that wait for their answer, by id.
    pub pending_requests: Map<u64, oneshot::Sender<OneShotResponse>>,
}

/// The id that follows `n`; the counter wraps around at the top of `u64`.
pub open spec fn following_id(n: u64) -> u64 {
    if n == u64::MAX {
        0
    } else {
        (n + 1) as u64
    }
}

/// `after` is `before` with the next id handed out as `id`.
pub open spec fn issues_id(before: SessionView, after: SessionView, id: u64) -> bool {
    &&& id == before.last_sequence
    &&& after.last_sequence == following_id(before.last_sequence)
    &&& after.subscriptions == before.subscriptions
    &&& after.pending_requests == before.pending_requests
}

/// `after` is `before` with a fresh subscription under `id`, which replaces
/// any earlier one under that id.
pub open spec fn opens_subscription(before: SessionView, after: SessionView, id: u64) -> bool {
    &&& after.last_sequence == before.last_sequence
    &&& after.pending_requests == before.pending_requests
    &&& after.subscriptions.contains_key(id)
    &&& after.subscriptions == before.subscriptions.insert(id, after.subscriptions[id])
}

/// `after` is `before` without a subscription under `id`.
pub open spec fn closes_subscription(before: SessionView, after: SessionView, id: u64) -> bool {
    &&& after.last_sequence == before.last_sequence
    &&& after.pending_requests == before.pending_requests
    &&& after.subscriptions == before.subscriptions.remove(id)
}

/// `after` is `before` with a request under `id` that waits for its answer,
/// replacing any earlier one under that id.
pub open spec fn registers_request(before: SessionView, after: SessionView, id: u64) -> bool {
    &&& after.last_sequence == before.last_sequence
    &&& after.subscriptions == before.subscriptions
    &&& after.pending_requests.contains_key(id)
    &&& after.pending_requests == before.pending_requests.insert(id, after.pending_requests[id])
}

/// `after` is `before` without a waiting request under `id`; `found` says
/// whether one was waiting.
pub open spec fn settles_request(before: SessionView, after: SessionView, id: u64, found: bool) -> bool {
    &&& after.last_sequence == before.last_sequence
    &&& after.subscriptions == before.subscriptions
    &&& after.pending_requests == before.pending_requests.remove(id)
    &&& found == before.pending_requests.contains_key(id)
}

/// The bookkeeping of one connection: request ids, waiting requests and open
/// subscriptions.
pub struct Session {
    last_sequence: u64,
    subscriptions: HashMap<u64, mpsc::Sender<WSEvent>>,
    pending_requests: HashMap<u64, oneshot::Sender<OneShotResponse>>,
}

impl View for Session {
    type V = SessionView;

    closed spec fn view(&self) -> SessionView {
        SessionView {
            last_sequence: self.last_sequence,
            subscriptions: self.subscriptions@,
            pending_requests: self.pending_requests@,
        }
    }
}

impl Session {
    /// A session just authenticated: the first request gets id 1, nothing
    /// waits and nothing is subscribed.
    pub fn new() -> (s: Self)
        ensures
            s@.last_sequence == 1,
            s@.subscriptions == Map::<u64, mpsc::Sender<WSEvent>>::empty(),
            s@.pending_requests == Map::<u64, oneshot::Sender<OneShotResponse>>::empty(),
    {
        Session { last_sequence: 1, subscriptions: HashMap::new(), pending_requests: HashMap::new() }
    }

    /// Hands out the id of the next request.
    pub fn next_seq(&mut self) -> (id: u64)
        ensures
            issues_id(old(self)@, final(self)@, id),
    {
        let id = self.last_sequence;
        self.last_sequence = if id == u64::MAX {
            0
        } else {
            id + 1
        };
        id
    }

    /// A handle on the subscription under `id`, if one is open.
    pub fn get_tx(&self, id: u64) -> (r: Option<mpsc::Sender<WSEvent>>)
        ensures
            r is Some <==> self@.subscriptions.contains_key(id),
            r matches Some(tx) ==> tx == self@.subscriptions[id],
    {
        match self.subscriptions.get(&id) {
            Some(tx) => Some(tx.clone()),
            None => None,
        }
    }

    /// Opens the subscription under `id` and returns the receiving half of
    /// its channel, with whether an earlier subscription under `id` was open;
    /// that one is dropped and gets no further events.
    pub fn get_rx(&mut self, id: u64) -> (r: (mpsc::Receiver<WSEvent>, bool))
        ensures
            opens_subscription(old(self)@, final(self)@, id),
            feeds(final(self)@.subscriptions[id], r.0),
            r.1 == old(self)@.subscriptions.contains_key(id),
    {
        let (tx, rx) = event_channel(SUBSCRIPTION_BUFFER);
        let replaced = self.subscriptions.insert(id, tx);
        (rx, replaced.is_some())
    }

    /// Settles the forwarding of an event of the subscription under `id`:
    /// when the event could not be handed over, the receiving half is gone
    /// and the subscription is closed; otherwise nothing changes.
    pub fn settle_forward(&mut self, id: u64, handed_over: bool)
        ensures
            handed_over ==> final(self)@ == old(self)@,
            !handed_over ==> closes_subscription(old(self)@, final(self)@, id),
    {
        if !handed_over {
            self.rm_subscription(id);
        }
    }

    /// Closes the subscription under `id`, if one is open.
    pub fn rm_subscription(&mut self, id: u64)
        ensures
            closes_subscription(old(self)@, final(self)@, id),
    {
        self.subscriptions.remove(&id);
    }

    /// Takes out the responder of the request under `id`, if one waits.
    pub fn take_responder(&mut self, id: u64) -> (r: Option<oneshot::Sender<OneShotResponse>>)
        ensures
            settles_request(old(self)@, final(self)@, id, r is Some),
            r matches Some(tx) ==> tx == old(self)@.pending_requests[id],
    {
        self.pending_requests.remove(&id)
    }

    /// Registers the request under `id` as waiting for its answer and
    /// returns where the answer will arrive. An earlier request under the
    /// same id is dropped.
    pub fn register_request(&mut self, id: u64) -> (rx: oneshot::Receiver<OneShotResponse>)
        ensures
            registers_request(old(self)@, final(self)@, id),
            answers(final(self)@.pending_requests[id], rx),
    {
        let (tx, rx) = answer_channel();
        self.pending_requests.insert(id, tx);
        rx
    }

    /// Matches an answer with the request it answers, which then no longer
    /// waits: gives back that request's responder together with the answer,
    /// for the caller to send it on. When no request with the answer's id
    /// waits, the answer comes back unchanged as the error.
    pub fn resolve_oneshot(&mut self, oneshot: OneShotResponse) -> (r: Result<
        (oneshot::Sender<OneShotResponse>, OneShotResponse),
        OneShotResponse,
    >)
        ensures
            settles_request(old(self)@, final(self)@, oneshot.answer_id(), r is Ok),
            r matches Ok((tx, answer)) ==> tx == old(self)@.pending_requests[oneshot.answer_id()]
                && answer == oneshot,
            r matches Err(back) ==> back == oneshot,
    {
        let id = oneshot.id();
        match self.take_responder(id) {
            Some(tx) => Ok((tx, oneshot)),
            None => Err(oneshot),
        }
    }

    /// Decides where a message that arrived after the handshake goes.
    pub fn route_incoming(&mut self, msg: Response) -> (d: Delivery)
        ensures
            routes(old(self)@, final(self)@, msg, d),
    {
        match msg {
            Response::Event(event) => match self.get_tx(event.id) {
                Some(tx) => Delivery::Event(tx, event),
                None => Delivery::Unsubscribed(event),
            },
            Response::OneShot(oneshot) => match self.resolve_oneshot(oneshot) {
                Ok((tx, answer)) => Delivery::Answer(tx, answer),
                Err(back) => Delivery::Unclaimed(back),
            },
            Response::Auth(auth) => Delivery::LateAuth(auth),
        }
    }
}

/// Where a message that arrived after the handshake goes.
#[derive(Debug)]
pub enum Delivery {
    /// Forward the event on this channel; when its receiver is gone, close
    /// the subscription.
    Event(mpsc::Sender<WSEvent>, WSEvent),
    /// No subscription is open under the event's id; the event is dropped.
    Unsubscribed(WSEvent),
    /// Send the answer on this responder of the request that waited for it.
    Answer(oneshot::Sender<OneShotResponse>, OneShotResponse),
    /// No request waits for this answer.
    Unclaimed(OneShotResponse),
    /// An authentication message came after the handshake.
    LateAuth(AuthResponse),
}

/// `d` is where `msg` goes from a session in state `before`, which is then
/// in state `after`.
pub open spec fn routes(before: SessionView, after: SessionView, msg: Response, d: Delivery) -> bool {
    match msg {
        Response::Event(event) => {
            &&& after == before
            &&& if before.subscriptions.contains_key(event.id) {
                d matches Delivery::Event(tx, forwarded) && tx == before.subscriptions[event.id]
                    && forwarded == event
            } else {
                d == Delivery::Unsubscribed(event)
            }
        },
        Response::OneShot(oneshot) => {
            &&& settles_request(before, after, oneshot.answer_id(), d is Answer)
            &&& if before.pending_requests.contains_key(oneshot.answer_id()) {
                d == Delivery::Answer(before.pending_requests[oneshot.answer_id()], oneshot)
            } else {
                d == Delivery::Unclaimed(oneshot)
            }
        },
        Response::Auth(auth) => after == before && d == Delivery::LateAuth(auth),
    }
}

/// A registered request gets exactly one answer: the first answer with its
/// id reaches it, and a second answer with the same id finds nothing waiting.
pub proof fn law_request_answered_once(
    s0: SessionView,
    s1: SessionView,
    s2: SessionView,
    s3: SessionView,
    id: u64,
    first: bool,
    second: bool,
)
    requires
        registers_request(s0, s1, id),
        settles_request(s1, s2, id, first),
        settles_request(s2, s3, id, second),
    ensures
        first,
        !second,
{
}

/// An answer to another request leaves a registered request waiting.
pub proof fn law_other_answers_leave_request_waiting(
    s0: SessionView,
    s1: SessionView,
    s2: SessionView,
    id: u64,
    other: u64,
    found: bool,
)
    requires
        registers_request(s0, s1, id),
        settles_request(s1, s2, other, found),
        other != id,
    ensures
        s2.pending_requests.contains_key(id),
        s2.pending_requests[id] == s1.pending_requests[id],
{
}

/// An event with the id of an open subscription is forwarded on that
/// subscription's channel; once the subscription is closed, such an event
/// is dropped. Opening and closing touch no other subscription.
pub proof fn law_events_follow_subscriptions(
    s0: SessionView,
    s1: SessionView,
    s2: SessionView,
    s3: SessionView,
    s4: SessionView,
    id: u64,
    event: WSEvent,
    d1: Delivery,
    d2: Delivery,
)
    requires
        opens_subscription(s0, s1, id),
        routes(s1, s2, Response::Event(event), d1),
        closes_subscription(s2, s3, id),
        routes(s3, s4, Response::Event(event), d2),
        event.id == id,
    ensures
        d1 matches Delivery::Event(tx, forwarded) && tx == s1.subscriptions[id] && forwarded == event,
        d2 == Delivery::Unsubscribed(event),
        forall|k: u64| k != id ==> (#[trigger] s3.subscriptions.contains_key(k)) == s0.subscriptions.contains_key(k),
{
}

/// Routing an event changes nothing in the session: it goes on the sender
/// stored under its id when a subscription is open there, and is dropped
/// otherwise.
pub proof fn law_routing_an_event_keeps_the_session(
    before: SessionView,
    after: SessionView,
    event: WSEvent,
    d: Delivery,
)
    requires
        routes(before, after, Response::Event(event), d),
    ensures
        after == before,
        after.subscriptions == before.subscriptions,
        after.pending_requests == before.pending_requests,
        after.last_sequence == before.last_sequence,
        before.subscriptions.contains_key(event.id) ==> (d matches Delivery::Event(tx, forwarded)
            && tx == before.subscriptions[event.id] && forwarded == event),
        !before.subscriptions.contains_key(event.id) ==> d == Delivery::Unsubscribed(event),
{
}

/// Successive events of one open subscription all go on the same sender:
/// forwarding the first leaves the subscription open for the second.
pub proof fn law_successive_events_share_the_subscription(
    s0: SessionView,
    s1: SessionView,
    s2: SessionView,
    e1: WSEvent,
    e2: WSEvent,
    d1: Delivery,
    d2: Delivery,
)
    requires
        s0.subscriptions.contains_key(e1.id),
        e2.id == e1.id,
        routes(s0, s1, Response::Event(e1), d1),
        routes(s1, s2, Response::Event(e2), d2),
    ensures
        s2.subscriptions.contains_key(e1.id),
        d1 matches Delivery::Event(tx1, f1) && tx1 == s0.subscriptions[e1.id] && f1 == e1,
        d2 matches Delivery::Event(tx2, f2) && tx2 == s0.subscriptions[e1.id] && f2 == e2,
{
}

/// How many distinct ids there are: the counter runs through all of `u64`.
pub open spec fn id_space() -> int {
    0x1_0000_0000_0000_0000
}

/// The id handed out `k` requests after the counter stood at `n`, counting
/// around the top of `u64`.
pub open spec fn id_after(n: u64, k: int) -> u64 {
    ((n + k) % id_space()) as u64
}

proof fn lemma_id_after_zero(n: u64)
    ensures
        id_after(n, 0) == n,
{
    lemma_fundamental_div_mod_converse(n as int, id_space(), 0, n as int);
}

proof fn lemma_following_id_after(n: u64, k: int)
    requires
        0 <= k,
    ensures
        following_id(id_after(n, k)) == id_after(n, k + 1),
{
    let m = id_space();
    let a = n + k;
    lemma_fundamental_div_mod(a, m);
    lemma_mod_pos_bound(a, m);
    let q = a / m;
    let r = a % m;
    if r == u64::MAX {
        lemma_fundamental_div_mod_converse(a + 1, m, q + 1, 0);
    } else {
        lemma_fundamental_div_mod_converse(a + 1, m, q, r + 1);
    }
}

proof fn lemma_ids_differ(n: u64, i: int, j: int)
    requires
        0 <= i < j < id_space(),
    ensures
        id_after(n, i) != id_after(n, j),
{
    let m = id_space();
    let a = n + i;
    let b = n + j;
    lemma_fundamental_div_mod(a, m);
    lemma_fundamental_div_mod(b, m);
    lemma_mod_pos_bound(a, m);
    lemma_mod_pos_bound(b, m);
    if a % m == b % m {
        let d = b / m - a / m;
        assert(b - a == m * d) by (nonlinear_arith)
            requires
                a == m * (a / m) + a % m,
                b == m * (b / m) + b % m,
                a % m == b % m,
                d == b / m - a / m,
        ;
        assert(false) by (nonlinear_arith)
            requires
                b - a == m * d,
                0 < b - a < m,
                m > 0,
        ;
    }
}

proof fn lemma_counter_after(states: Seq<SessionView>, ids: Seq<u64>, k: int)
    requires
        states.len() == ids.len() + 1,
        forall|i: int| 0 <= i < ids.len() ==> issues_id(#[trigger] states[i], states[i + 1], ids[i]),
        0 <= k <= ids.len(),
    ensures
        states[k].last_sequence == id_after(states[0].last_sequence, k),
    decreases k,
{
    let n = states[0].last_sequence;
    if k == 0 {
        lemma_id_after_zero(n);
    } else {
        lemma_counter_after(states, ids, k - 1);
        assert(issues_id(states[k - 1], states[k], ids[k - 1]));
        lemma_following_id_after(n, k - 1);
    }
}

/// Requests get consecutive ids: after the counter stood at `n`, the
/// requests get `n`, `n + 1`, ... counted around the top of `u64`, and the
/// counter then stands at `n` plus their number. So as long as no more
/// requests are made than there are ids, no two of them share an id.
pub proof fn law_ids_are_consecutive(states: Seq<SessionView>, ids: Seq<u64>)
    requires
        states.len() == ids.len() + 1,
        forall|i: int| 0 <= i < ids.len() ==> issues_id(#[trigger] states[i], states[i + 1], ids[i]),
    ensures
        forall|i: int| 0 <= i < ids.len() ==> #[trigger] ids[i] == id_after(states[0].last_sequence, i),
        states[ids.len() as int].last_sequence == id_after(states[0].last_sequence, ids.len() as int),
        ids.len() <= id_space() ==> forall|i: int, j: int|
            0 <= i < j < ids.len() ==> #[trigger] ids[i] != #[trigger] ids[j],
{
    let n = states[0].last_sequence;
    assert forall|i: int| 0 <= i < ids.len() implies #[trigger] ids[i] == id_after(n, i) by {
        lemma_counter_after(states, ids, i);
        assert(issues_id(states[i], states[i + 1], ids[i]));
    }
    lemma_counter_after(states, ids, ids.len() as int);
    if ids.len() <= id_space() {
        assert forall|i: int, j: int| 0 <= i < j < ids.len() implies #[trigger] ids[i] != #[trigger] ids[j] by {
            assert(ids[i] == id_after(n, i));
            assert(ids[j] == id_after(n, j));
            lemma_ids_differ(n, i, j);
        }
    }
}

/// The first answer with the id of a registered request is handed, with its
/// responder, to be sent on; a second answer with that id is unclaimed.
pub proof fn law_answer_goes_to_its_request(
    s0: SessionView,
    s1: SessionView,
    s2: SessionView,
    s3: SessionView,
    answer: OneShotResponse,
    again: OneShotResponse,
    d1: Delivery,
    d2: Delivery,
)
    requires
        registers_request(s0, s1, answer.answer_id()),
        routes(s1, s2, Response::OneShot(answer), d1),
        routes(s2, s3, Response::OneShot(again), d2),
        again.answer_id() == answer.answer_id(),
    ensures
        d1 == Delivery::Answer(s1.pending_requests[answer.answer_id()], answer),
        d2 == Delivery::Unclaimed(again),
{
}

/// An event with the id of a subscription goes on a sender that feeds the
/// receiver handed out when the subscription was opened.
pub proof fn law_event_reaches_subscriber(
    s0: SessionView,
    s1: SessionView,
    s2: SessionView,
    id: u64,
    rx: mpsc::Receiver<WSEvent>,
    event: WSEvent,
    d: Delivery,
)
    requires
        opens_subscription(s0, s1, id),
        feeds(s1.subscriptions[id], rx),
        routes(s1, s2, Response::Event(event), d),
        event.id == id,
    ensures
        d matches Delivery::Event(tx, forwarded) && feeds(tx, rx) && forwarded == event,
{
}

/// The answer with the id of a waiting request goes on the responder that
/// belongs to the receiver handed out when the request was registered; when
/// the id was registered twice, it goes to the later registration.
pub proof fn law_answer_reaches_latest_request(
    s0: SessionView,
    s1: SessionView,
    s2: SessionView,
    s3: SessionView,
    id: u64,
    rx: oneshot::Receiver<OneShotResponse>,
    answer: OneShotResponse,
    d: Delivery,
)
    requires
        registers_request(s0, s1, id),
        registers_request(s1, s2, id),
        answers(s2.pending_requests[id], rx),
        routes(s2, s3, Response::OneShot(answer), d),
        answer.answer_id() == id,
    ensures
        d matches Delivery::Answer(tx, a) && answers(tx, rx) && a == answer,
        !s3.pending_requests.contains_key(id),
{
}

} // verus!
