//! The broadcast hub: one channel for the whole process, to which every live
//! connection subscribes and into which every connection publishes.

use crate::socket::{EnvelopeView, SocketChatBody};
use tokio::sync::broadcast::error::TryRecvError;
use tokio::sync::broadcast::{Receiver, Sender};
use vstd::prelude::*;

verus! {

/// The sending side of tokio's broadcast channel, carried as it is: nothing
/// inside it is read here.
#[verifier::external_type_specification]
#[verifier::external_body]
#[verifier::reject_recursive_types(T)]
pub struct ExSender<T>(Sender<T>);

/// The receiving side of tokio's broadcast channel, carried as it is.
#[verifier::external_type_specification]
#[verifier::external_body]
#[verifier::reject_recursive_types(T)]
pub struct ExReceiver<T>(Receiver<T>);

/// The envelopes that were sent into the channel since the receiver's
/// cursor, oldest first, whether the channel still retains them or not.
pub uninterp spec fn unread(rx: Receiver<SocketChatBody>) -> Seq<EnvelopeView>;

/// The number of envelopes that the channel behind the sender retains.
pub uninterp spec fn ring_len(tx: Sender<SocketChatBody>) -> nat;

/// Whether the receiver was subscribed through this sender's channel.
pub uninterp spec fn attached(tx: Sender<SocketChatBody>, rx: Receiver<SocketChatBody>) -> bool;

/// The first of `p`, `2p`, `4p`, ... that is at least `n`.
pub open spec fn pow2_from(p: nat, n: nat) -> nat
    decreases
            (if p >= n {
                0
            } else {
                n - p
            }),
{
    if p == 0 || p >= n {
        p
    } else {
        pow2_from(2 * p, n)
    }
}

/// The smallest power of two that is at least `capacity`.
pub open spec fn ring_size(capacity: nat) -> nat {
    pow2_from(1, capacity)
}

proof fn lemma_pow2_from(p: nat, n: nat)
    requires
        p > 0,
    ensures
        pow2_from(p, n) >= n,
        pow2_from(p, n) >= p,
    decreases
            (if p >= n {
                0
            } else {
                n - p
            }),
{
    if p < n {
        lemma_pow2_from(2 * p, n);
    }
}

/// A ring holds at least as many envelopes as were asked for, and at least
/// one.
pub proof fn lemma_ring_size(capacity: nat)
    ensures
        ring_size(capacity) >= capacity,
        ring_size(capacity) >= 1,
{
    lemma_pow2_from(1, capacity);
}

/// What one poll of a subscription gives.
#[derive(Debug)]
pub enum Delivery {
    /// The oldest unread envelope.
    Envelope(SocketChatBody),
    /// Nothing is unread.
    Empty,
    /// The subscriber fell behind by more than the ring holds: this many
    /// envelopes were skipped, and reading resumes at the oldest retained one.
    Lagged(u64),
    /// The channel has no sender any more.
    Closed,
}

/// Whether a poll on the unread envelopes `queue` of a ring of `ring`
/// envelopes may answer `d`.
pub open spec fn is_poll_of(d: Delivery, queue: Seq<EnvelopeView>, ring: nat) -> bool {
    if queue.len() == 0 {
        d is Empty
    } else if queue.len() <= ring {
        d matches Delivery::Envelope(e) && e@ == queue[0]
    } else {
        d matches Delivery::Lagged(n) && n == queue.len() - ring
    }
}

/// The unread envelopes after a poll.
pub open spec fn after_poll(queue: Seq<EnvelopeView>, ring: nat) -> Seq<EnvelopeView> {
    if queue.len() == 0 {
        queue
    } else if queue.len() <= ring {
        queue.drop_first()
    } else {
        queue.skip(queue.len() - ring)
    }
}

/// Calls `tokio::sync::broadcast::Sender::new`. Not proved: that the channel
/// retains the requested capacity rounded up to a power of two. The call
/// panics on a capacity of zero or above `usize::MAX / 2`, which `requires`
/// leaves out.
#[verifier::external_body]
fn channel_new(capacity: usize) -> (tx: Sender<SocketChatBody>)
    requires
        0 < capacity <= usize::MAX / 2,
    ensures
        ring_len(tx) == ring_size(capacity as nat),
{
    Sender::new(capacity)
}

/// Calls `tokio::sync::broadcast::Sender::subscribe`. Not proved: that the
/// new receiver belongs to the sender's channel and starts with nothing
/// unread. (The call panics at `usize::MAX >> 2` live receivers, more than
/// memory can hold.)
#[verifier::external_body]
fn channel_subscribe(tx: &Sender<SocketChatBody>) -> (rx: Receiver<SocketChatBody>)
    ensures
        attached(*tx, rx),
        unread(rx) == Seq::<EnvelopeView>::empty(),
{
    tx.subscribe()
}

/// Calls `tokio::sync::broadcast::Sender::send` and drops its result. The
/// receivers are handed in because the send changes what each of them has
/// unread. Not proved: that every receiver of the channel gets the envelope
/// behind what it had unread. This holds while no other sender handle of the
/// channel is in use, which the hub sees to by never giving its sender out.
#[verifier::external_body]
fn channel_send(
    tx: &Sender<SocketChatBody>,
    rxs: &mut Vec<Receiver<SocketChatBody>>,
    value: SocketChatBody,
)
    requires
        forall|i: int| 0 <= i < old(rxs)@.len() ==> attached(*tx, #[trigger] old(rxs)@[i]),
    ensures
        final(rxs)@.len() == old(rxs)@.len(),
        forall|i: int|
            0 <= i < old(rxs)@.len() ==> attached(*tx, #[trigger] final(rxs)@[i]) && unread(
                final(rxs)@[i],
            ) == unread(old(rxs)@[i]).push(value@),
{
    let _ = rxs;
    let _ = tx.send(value);
}

/// Calls `tokio::sync::broadcast::Receiver::try_recv`. The sender is handed
/// in as the witness that the channel is open. Not proved: that the answer
/// is the oldest unread envelope while no more is unread than the ring
/// holds, `Empty` when nothing is unread, and otherwise `Lagged` with the
/// number of envelopes lost, after which the newest `ring_len` envelopes are
/// unread.
#[verifier::external_body]
fn channel_try_recv(tx: &Sender<SocketChatBody>, rx: &mut Receiver<SocketChatBody>) -> (d:
    Delivery)
    requires
        attached(*tx, *old(rx)),
    ensures
        attached(*tx, *final(rx)),
        is_poll_of(d, unread(*old(rx)), ring_len(*tx)),
        unread(*final(rx)) == after_poll(unread(*old(rx)), ring_len(*tx)),
{
    let _ = tx;
    match rx.try_recv() {
        Ok(envelope) => Delivery::Envelope(envelope),
        Err(TryRecvError::Empty) => Delivery::Empty,
        Err(TryRecvError::Lagged(skipped)) => Delivery::Lagged(skipped),
        Err(TryRecvError::Closed) => Delivery::Closed,
    }
}


/// The mathematical value of a [`RoomHub`].
pub ghost struct HubView {
    /// How many envelopes the channel retains.
    pub ring: nat,
    /// How many subscriber ids were handed out so far.
    pub issued: nat,
    /// For each live subscriber, the envelopes it has yet to receive, oldest
    /// first.
    pub queues: Map<u64, Seq<EnvelopeView>>,
}

impl HubView {
    /// The hub after `envelope` was published: it stands last in the queue
    /// of every subscriber.
    pub open spec fn publish(self, envelope: EnvelopeView) -> HubView {
        HubView {
            queues: Map::new(
                |id: u64| self.queues.contains_key(id),
                |id: u64| self.queues[id].push(envelope),
            ),
            ..self
        }
    }

    /// The hub after one more subscription: the new subscriber has the next
    /// id and an empty queue.
    pub open spec fn subscribe(self) -> HubView {
        HubView {
            issued: self.issued + 1,
            queues: self.queues.insert(self.issued as u64, Seq::empty()),
            ..self
        }
    }

    /// The hub after the subscriber `id` has left.
    pub open spec fn unsubscribe(self, id: u64) -> HubView {
        HubView { queues: self.queues.remove(id), ..self }
    }

    /// The hub after the subscriber `id` was polled once.
    pub open spec fn poll(self, id: u64) -> HubView {
        if self.queues.contains_key(id) {
            HubView {
                queues: self.queues.insert(id, after_poll(self.queues[id], self.ring)),
                ..self
            }
        } else {
            self
        }
    }

    /// Every subscriber's id was handed out by this hub.
    pub open spec fn wf(self) -> bool {
        &&& self.ring >= 1
        &&& self.issued <= u64::MAX
        &&& forall|id: u64| self.queues.contains_key(id) ==> id < self.issued
    }
}

/// The hub: the sending side of the channel and the receiving side of every
/// subscriber.
pub struct RoomHub {
    sender: Sender<SocketChatBody>,
    ids: Vec<u64>,
    receivers: Vec<Receiver<SocketChatBody>>,
    next_id: u64,
}

spec fn is_slot(ids: Seq<u64>, i: int, id: u64) -> bool {
    0 <= i < ids.len() && ids[i] == id
}

spec fn queues_of(ids: Seq<u64>, rxs: Seq<Receiver<SocketChatBody>>) -> Map<
    u64,
    Seq<EnvelopeView>,
> {
    Map::new(
        |id: u64| exists|i: int| is_slot(ids, i, id),
        |id: u64| unread(rxs[choose|i: int| is_slot(ids, i, id)]),
    )
}

spec fn distinct_ids(ids: Seq<u64>) -> bool {
    forall|i: int, j: int| 0 <= i < ids.len() && 0 <= j < ids.len() && i != j ==> ids[i] != ids[j]
}

proof fn lemma_slot(ids: Seq<u64>, rxs: Seq<Receiver<SocketChatBody>>, i: int)
    requires
        distinct_ids(ids),
        0 <= i < ids.len(),
    ensures
        queues_of(ids, rxs).contains_key(ids[i]),
        queues_of(ids, rxs)[ids[i]] == unread(rxs[i]),
{
    assert(is_slot(ids, i, ids[i]));
    let c = choose|c: int| is_slot(ids, c, ids[i]);
    assert(is_slot(ids, c, ids[i]));
    assert(c == i);
}

proof fn lemma_no_slot(ids: Seq<u64>, rxs: Seq<Receiver<SocketChatBody>>, id: u64)
    requires
        forall|i: int| 0 <= i < ids.len() ==> ids[i] != id,
    ensures
        !queues_of(ids, rxs).contains_key(id),
{
    assert forall|i: int| !is_slot(ids, i, id) by {}
}

impl View for RoomHub {
    type V = HubView;

    closed spec fn view(&self) -> HubView {
        HubView {
            ring: ring_len(self.sender),
            issued: self.next_id as nat,
            queues: queues_of(self.ids@, self.receivers@),
        }
    }
}

impl RoomHub {
    /// The invariant of the hub.
    pub closed spec fn wf(&self) -> bool {
        &&& self.ids@.len() == self.receivers@.len()
        &&& distinct_ids(self.ids@)
        &&& ring_len(self.sender) >= 1
        &&& forall|i: int| 0 <= i < self.ids@.len() ==> self.ids@[i] < self.next_id
        &&& forall|i: int|
            0 <= i < self.receivers@.len() ==> attached(self.sender, #[trigger] self.receivers@[i])
    }

    /// A well-formed hub has a well-formed value.
    pub proof fn lemma_view_wf(&self)
        requires
            self.wf(),
        ensures
            self@.wf(),
    {
        assert forall|id: u64| self@.queues.contains_key(id) implies id < self@.issued by {
            let i = choose|i: int| is_slot(self.ids@, i, id);
            assert(is_slot(self.ids@, i, id));
        }
    }

    /// A hub without subscribers whose channel retains `capacity` envelopes,
    /// rounded up to a power of two. A capacity of zero or above
    /// `usize::MAX / 2` is refused.
    pub fn new(capacity: usize) -> (r: Option<RoomHub>)
        ensures
            r is Some <==> 0 < capacity <= usize::MAX / 2,
            r matches Some(hub) ==> hub.wf() && hub@ == (HubView {
                ring: ring_size(capacity as nat),
                issued: 0,
                queues: Map::empty(),
            }),
    {
        if capacity == 0 || capacity > usize::MAX / 2 {
            return None;
        }
        let sender = channel_new(capacity);
        let hub = RoomHub { sender, ids: Vec::new(), receivers: Vec::new(), next_id: 0 };
        proof {
            lemma_ring_size(capacity as nat);
            assert forall|id: u64| !hub@.queues.contains_key(id) by {
                lemma_no_slot(hub.ids@, hub.receivers@, id);
            }
            assert(hub@.queues =~= Map::empty());
        }
        Some(hub)
    }

    /// Publishes `envelope` to every subscriber there is at this moment.
    /// Without subscribers nothing happens.
    pub fn publish(&mut self, envelope: SocketChatBody)
        requires
            old(self).wf(),
        ensures
            final(self).wf(),
            final(self)@ == old(self)@.publish(envelope@),
    {
        channel_send(&self.sender, &mut self.receivers, envelope);
        proof {
            let want = old(self)@.publish(envelope@).queues;
            assert forall|id: u64| self@.queues.contains_key(id) implies want.contains_key(id)
                && self@.queues[id] == want[id] by {
                let i = choose|i: int| is_slot(self.ids@, i, id);
                assert(is_slot(self.ids@, i, id));
                lemma_slot(self.ids@, self.receivers@, i);
                lemma_slot(old(self).ids@, old(self).receivers@, i);
            }
            assert(self@.queues =~= want);
        }
    }

    /// Adds a subscriber, which will receive what is published from now on
    /// and nothing that was published before. Answers its id, or `None` once
    /// every id has been handed out.
    pub fn subscribe(&mut self) -> (r: Option<u64>)
        requires
            old(self).wf(),
        ensures
            final(self).wf(),
            match r {
                Some(id) => old(self)@.issued < u64::MAX && id == old(self)@.issued && final(self)@
                    == old(self)@.subscribe(),
                None => old(self)@.issued == u64::MAX && final(self)@ == old(self)@,
            },
    {
        if self.next_id == u64::MAX {
            return None;
        }
        let id = self.next_id;
        let rx = channel_subscribe(&self.sender);
        proof {
            lemma_no_slot(self.ids@, self.receivers@, id);
        }
        self.ids.push(id);
        self.receivers.push(rx);
        self.next_id = id + 1;
        proof {
            let want = old(self)@.subscribe().queues;
            let n = old(self).ids@.len() as int;
            assert forall|k: u64| self@.queues.contains_key(k) <==> want.contains_key(k) by {
                if self@.queues.contains_key(k) {
                    let i = choose|i: int| is_slot(self.ids@, i, k);
                    assert(is_slot(self.ids@, i, k));
                    if i < n {
                        assert(is_slot(old(self).ids@, i, k));
                    }
                }
                if want.contains_key(k) {
                    if k == id {
                        assert(is_slot(self.ids@, n, k));
                    } else {
                        let i = choose|i: int| is_slot(old(self).ids@, i, k);
                        assert(is_slot(old(self).ids@, i, k));
                        assert(is_slot(self.ids@, i, k));
                    }
                }
            }
            assert forall|k: u64| self@.queues.contains_key(k) implies self@.queues[k]
                == want[k] by {
                let i = choose|i: int| is_slot(self.ids@, i, k);
                assert(is_slot(self.ids@, i, k));
                lemma_slot(self.ids@, self.receivers@, i);
                if i < n {
                    lemma_slot(old(self).ids@, old(self).receivers@, i);
                }
            }
            assert(self@.queues =~= want);
        }
        Some(id)
    }

    fn slot(&self, id: u64) -> (r: Option<usize>)
        requires
            self.wf(),
        ensures
            match r {
                Some(i) => i < self.ids@.len() && self.ids@[i as int] == id
                    && self@.queues.contains_key(id) && self@.queues[id] == unread(
                    self.receivers@[i as int],
                ),
                None => !self@.queues.contains_key(id),
            },
    {
        let mut i: usize = 0;
        while i < self.ids.len()
            invariant
                i <= self.ids@.len(),
                self.wf(),
                forall|j: int| 0 <= j < i ==> self.ids@[j] != id,
            decreases self.ids@.len() - i,
        {
            if self.ids[i] == id {
                proof {
                    lemma_slot(self.ids@, self.receivers@, i as int);
                }
                return Some(i);
            }
            i += 1;
        }
        proof {
            lemma_no_slot(self.ids@, self.receivers@, id);
        }
        None
    }

    /// Polls the subscriber `id` once, without waiting. `None` exactly when
    /// there is no such subscriber. Otherwise the answer is the oldest unread
    /// envelope while the subscriber has not fallen behind by more than the
    /// ring holds; `Empty` when nothing is unread; and `Lagged` when it has
    /// fallen behind, after which it goes on with the oldest retained
    /// envelope.
    pub fn poll(&mut self, id: u64) -> (r: Option<Delivery>)
        requires
            old(self).wf(),
        ensures
            final(self).wf(),
            final(self)@ == old(self)@.poll(id),
            match r {
                Some(d) => old(self)@.queues.contains_key(id) && is_poll_of(
                    d,
                    old(self)@.queues[id],
                    old(self)@.ring,
                ),
                None => !old(self)@.queues.contains_key(id),
            },
    {
        match self.slot(id) {
            None => None,
            Some(i) => {
                let mut rx = self.receivers.remove(i);
                let d = channel_try_recv(&self.sender, &mut rx);
                self.receivers.insert(i, rx);
                proof {
                    assert(self.receivers@ =~= old(self).receivers@.update(i as int, rx));
                    let want = old(self)@.poll(id).queues;
                    assert forall|k: u64| self@.queues.contains_key(k) implies want.contains_key(k)
                        && self@.queues[k] == want[k] by {
                        let j = choose|j: int| is_slot(self.ids@, j, k);
                        assert(is_slot(self.ids@, j, k));
                        lemma_slot(self.ids@, self.receivers@, j);
                        lemma_slot(old(self).ids@, old(self).receivers@, j);
                    }
                    assert(self@.queues =~= want);
                }
                Some(d)
            },
        }
    }

    /// Removes the subscriber `id`. Answers whether there was one.
    pub fn unsubscribe(&mut self, id: u64) -> (found: bool)
        requires
            old(self).wf(),
        ensures
            final(self).wf(),
            found == old(self)@.queues.contains_key(id),
            final(self)@ == old(self)@.unsubscribe(id),
    {
        match self.slot(id) {
            None => {
                assert(self@.queues.remove(id) =~= self@.queues);
                false
            },
            Some(i) => {
                let _ = self.ids.remove(i);
                let _ = self.receivers.remove(i);
                proof {
                    let want = old(self)@.unsubscribe(id).queues;
                    let oi = old(self).ids@;
                    let orx = old(self).receivers@;
                    assert forall|a: int| 0 <= a < self.ids@.len() implies self.ids@[a] == oi[if a
                        < i {
                        a
                    } else {
                        a + 1
                    }] && self.receivers@[a] == orx[if a < i {
                        a
                    } else {
                        a + 1
                    }] by {}
                    assert forall|k: u64| self@.queues.contains_key(k) <==> want.contains_key(
                        k,
                    ) by {
                        if self@.queues.contains_key(k) {
                            let j = choose|j: int| is_slot(self.ids@, j, k);
                            assert(is_slot(self.ids@, j, k));
                            let sj = if j < i { j } else { j + 1 };
                            assert(is_slot(oi, sj, k));
                        }
                        if want.contains_key(k) {
                            let j = choose|j: int| is_slot(oi, j, k);
                            assert(is_slot(oi, j, k));
                            let tj = if j < i { j } else { j - 1 };
                            assert(is_slot(self.ids@, tj, k));
                        }
                    }
                    assert forall|k: u64| self@.queues.contains_key(k) implies self@.queues[k]
                        == want[k] by {
                        let j = choose|j: int| is_slot(self.ids@, j, k);
                        assert(is_slot(self.ids@, j, k));
                        let sj = if j < i { j } else { j + 1 };
                        lemma_slot(self.ids@, self.receivers@, j);
                        lemma_slot(oi, orx, sj);
                    }
                    assert(self@.queues =~= want);
                }
                true
            },
        }
    }

    /// The number of subscribers.
    pub fn subscriber_count(&self) -> (n: usize)
        requires
            self.wf(),
        ensures
            n == self@.queues.len(),
            self@.queues.dom().finite(),
    {
        proof {
            lemma_count(self.ids@, self.receivers@);
        }
        self.ids.len()
    }
}

impl HubView {
    /// The hub after the subscriber `id` was polled `n` times.
    pub open spec fn polls(self, id: u64, n: nat) -> HubView
        decreases n,
    {
        if n == 0 {
            self
        } else {
            self.polls(id, (n - 1) as nat).poll(id)
        }
    }
}

/// A published envelope stands in the queue of every subscriber that was
/// there when it was published, behind everything published before it.
pub proof fn lemma_publish_reaches_subscribers(hub: HubView, envelope: EnvelopeView, id: u64)
    requires
        hub.queues.contains_key(id),
    ensures
        hub.publish(envelope).queues.contains_key(id),
        hub.publish(envelope).queues[id] == hub.queues[id].push(envelope),
        hub.publish(envelope).queues.dom() == hub.queues.dom(),
{
    assert(hub.publish(envelope).queues.dom() =~= hub.queues.dom());
}

/// Two envelopes published one after the other stand in that order in the
/// queue of every subscriber.
pub proof fn lemma_publish_order(hub: HubView, first: EnvelopeView, second: EnvelopeView, id: u64)
    requires
        hub.queues.contains_key(id),
    ensures
        hub.publish(first).publish(second).queues[id] == hub.queues[id].push(first).push(second),
{
}

/// A subscriber that has not fallen behind by more than the ring holds
/// receives its unread envelopes one by one, oldest first: after `n` polls
/// the next poll answers the envelope at place `n` of the queue.
pub proof fn lemma_polls_in_order(hub: HubView, id: u64, n: nat, d: Delivery)
    requires
        hub.queues.contains_key(id),
        hub.queues[id].len() <= hub.ring,
        n < hub.queues[id].len(),
        is_poll_of(d, hub.polls(id, n).queues[id], hub.ring),
    ensures
        d matches Delivery::Envelope(e) && e@ == hub.queues[id][n as int],
{
    lemma_polls_queue(hub, id, n);
}

proof fn lemma_polls_queue(hub: HubView, id: u64, n: nat)
    requires
        hub.queues.contains_key(id),
        hub.queues[id].len() <= hub.ring,
        n <= hub.queues[id].len(),
    ensures
        hub.polls(id, n).ring == hub.ring,
        hub.polls(id, n).queues.contains_key(id),
        hub.polls(id, n).queues[id] == hub.queues[id].skip(n as int),
    decreases n,
{
    if n == 0 {
        assert(hub.queues[id].skip(0) =~= hub.queues[id]);
    } else {
        lemma_polls_queue(hub, id, (n - 1) as nat);
        let before = hub.polls(id, (n - 1) as nat);
        assert(before.queues[id].drop_first() =~= hub.queues[id].skip(n as int));
    }
}

/// A subscriber that joins after an envelope was published does not get it:
/// its queue starts empty, and a poll answers `Empty` until something new is
/// published.
pub proof fn lemma_late_subscriber_misses(hub: HubView, envelope: EnvelopeView, d: Delivery)
    requires
        hub.wf(),
        hub.issued < u64::MAX,
        is_poll_of(
            d,
            hub.publish(envelope).subscribe().queues[hub.issued as u64],
            hub.ring,
        ),
    ensures
        !hub.publish(envelope).queues.contains_key(hub.issued as u64),
        hub.publish(envelope).subscribe().queues[hub.issued as u64] == Seq::<
            EnvelopeView,
        >::empty(),
        d is Empty,
{
}

/// A subscriber that has fallen behind is told how many envelopes it lost
/// and then goes on with the newest `ring` envelopes.
pub proof fn lemma_lagged_resumes(hub: HubView, id: u64, d: Delivery)
    requires
        hub.queues.contains_key(id),
        hub.queues[id].len() > hub.ring,
        is_poll_of(d, hub.queues[id], hub.ring),
    ensures
        d matches Delivery::Lagged(n) && n == hub.queues[id].len() - hub.ring,
        hub.poll(id).queues[id] == hub.queues[id].skip(hub.queues[id].len() - hub.ring),
        hub.poll(id).queues[id].len() == hub.ring,
{
}

proof fn lemma_count(ids: Seq<u64>, rxs: Seq<Receiver<SocketChatBody>>)
    requires
        distinct_ids(ids),
    ensures
        queues_of(ids, rxs).dom().finite(),
        queues_of(ids, rxs).len() == ids.len(),
    decreases ids.len(),
{
    if ids.len() == 0 {
        assert forall|id: u64| !queues_of(ids, rxs).contains_key(id) by {
            lemma_no_slot(ids, rxs, id);
        }
        assert(queues_of(ids, rxs).dom() =~= Set::<u64>::empty());
    } else {
        let t = ids.drop_last();
        let last = ids.last();
        lemma_count(t, rxs);
        assert forall|id: u64| queues_of(ids, rxs).dom().contains(id) <==> queues_of(
            t,
            rxs,
        ).dom().insert(last).contains(id) by {
            if queues_of(ids, rxs).contains_key(id) {
                let i = choose|i: int| is_slot(ids, i, id);
                assert(is_slot(ids, i, id));
                if i < t.len() {
                    assert(is_slot(t, i, id));
                }
            }
            if queues_of(t, rxs).contains_key(id) {
                let i = choose|i: int| is_slot(t, i, id);
                assert(is_slot(t, i, id));
                assert(is_slot(ids, i, id));
            }
            if id == last {
                assert(is_slot(ids, ids.len() - 1, id));
            }
        }
        assert(queues_of(ids, rxs).dom() =~= queues_of(t, rxs).dom().insert(last));
        assert(!queues_of(t, rxs).contains_key(last)) by {
            lemma_no_slot(t, rxs, last);
        }
    }
}

} // verus!
