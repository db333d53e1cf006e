//! The broadcast hub: every message that is published goes to every
//! subscriber, in the order of publication.
//!
//! The hub holds the last messages only, as many as its capacity. Publishing
//! never waits for a subscriber: where the hub is full the oldest message
//! leaves, and a subscriber that has not read it yet misses it without
//! notice. A subscriber sees what is published after it subscribed, and
//! nothing that was published before.
//!
//! Messages are numbered from zero in the order of publication. A
//! subscription is the number of the next message that its holder is to
//! read.

use std::collections::VecDeque;
use vstd::prelude::*;

verus! {

/// The capacity of a hub made by `Hub::new`.
pub const DEFAULT_CAPACITY: usize = 64;

/// What a hub holds: the messages `dropped`, `dropped + 1`, and so on, of
/// which `held` are the texts.
pub struct HubView {
    pub capacity: nat,
    pub dropped: nat,
    pub held: Seq<Seq<char>>,
}

impl HubView {
    /// The hub has room for a message, and holds no more than it has room
    /// for.
    pub open spec fn wf(self) -> bool {
        1 <= self.capacity && self.held.len() <= self.capacity
    }

    /// How many messages were published so far.
    pub open spec fn published(self) -> nat {
        self.dropped + self.held.len()
    }

    /// An empty hub.
    pub open spec fn empty(capacity: nat) -> HubView {
        HubView { capacity, dropped: 0, held: Seq::empty() }
    }

    /// The hub after `message` was published: it is the newest message,
    /// and the oldest has left where the hub was full.
    pub open spec fn publish(self, message: Seq<char>) -> HubView {
        if self.held.len() < self.capacity {
            HubView { held: self.held.push(message), ..self }
        } else {
            HubView {
                dropped: self.dropped + 1,
                held: self.held.drop_first().push(message),
                ..self
            }
        }
    }

    /// The hub after each of `messages` was published, the first one first.
    pub open spec fn publish_all(self, messages: Seq<Seq<char>>) -> HubView
        decreases messages.len(),
    {
        if messages.len() == 0 {
            self
        } else {
            self.publish_all(messages.drop_last()).publish(messages.last())
        }
    }

    /// The subscription of one who subscribes now: the next message to be
    /// published is the first to be read.
    pub open spec fn subscribe(self) -> nat {
        self.published()
    }

    /// The number of the message that the holder of `cursor` reads next: the
    /// oldest that is held, where the holder has fallen behind.
    pub open spec fn next_for(self, cursor: nat) -> nat {
        if cursor < self.dropped {
            self.dropped
        } else {
            cursor
        }
    }

    /// What the holder of `cursor` has still to read, in the order in which
    /// it will be read, if nothing more is published.
    pub open spec fn backlog(self, cursor: nat) -> Seq<Seq<char>> {
        if self.next_for(cursor) < self.published() {
            self.held.skip(self.next_for(cursor) - self.dropped)
        } else {
            Seq::empty()
        }
    }

    /// What the holder of `cursor` receives now, and its subscription
    /// afterwards.
    pub open spec fn receive(self, cursor: nat) -> (Option<Seq<char>>, nat) {
        if self.backlog(cursor).len() > 0 {
            (Some(self.backlog(cursor).first()), self.next_for(cursor) + 1)
        } else {
            (None, cursor)
        }
    }
}

/// The texts of some messages.
pub open spec fn texts(messages: Seq<String>) -> Seq<Seq<char>> {
    Seq::new(messages.len(), |i: int| messages[i]@)
}

/// The broadcast hub.
pub struct Hub {
    capacity: usize,
    dropped: u64,
    held: VecDeque<String>,
}

impl View for Hub {
    type V = HubView;

    closed spec fn view(&self) -> HubView {
        HubView {
            capacity: self.capacity as nat,
            dropped: self.dropped as nat,
            held: texts(self.held@),
        }
    }
}

/// The place of one subscriber in the sequence of messages.
#[derive(Debug)]
pub struct Subscription {
    cursor: u64,
}

impl View for Subscription {
    type V = nat;

    closed spec fn view(&self) -> nat {
        self.cursor as nat
    }
}

impl Hub {
    #[verifier::type_invariant]
    spec fn well_formed(self) -> bool {
        self@.wf() && self@.published() <= u64::MAX
    }

    /// An empty hub of the default capacity.
    pub fn new() -> (r: Hub)
        ensures
            r@ == HubView::empty(DEFAULT_CAPACITY as nat),
    {
        let r = Hub { capacity: DEFAULT_CAPACITY, dropped: 0, held: VecDeque::new() };
        assert(r@.held == Seq::<Seq<char>>::empty());
        r
    }

    /// An empty hub that holds up to `capacity` messages. `None` where
    /// `capacity` is zero.
    pub fn with_capacity(capacity: usize) -> (r: Option<Hub>)
        ensures
            capacity == 0 <==> r is None,
            r matches Some(hub) ==> hub@ == HubView::empty(capacity as nat),
    {
        if capacity == 0 {
            None
        } else {
            let r = Hub { capacity, dropped: 0, held: VecDeque::new() };
            assert(r@.held == Seq::<Seq<char>>::empty());
            Some(r)
        }
    }

    /// How many messages the hub holds at most.
    pub fn capacity(&self) -> (r: usize)
        ensures
            r == self@.capacity,
            self@.wf(),
    {
        proof {
            use_type_invariant(self);
        }
        self.capacity
    }

    /// How many messages were published so far.
    pub fn published(&self) -> (r: u64)
        ensures
            r == self@.published(),
    {
        proof {
            use_type_invariant(self);
        }
        self.dropped + self.held.len() as u64
    }

    /// Publishes a message to all subscribers. The publisher never waits:
    /// where the hub is full, the oldest message leaves.
    pub fn publish(&mut self, message: String)
        requires
            old(self)@.published() < u64::MAX,
        ensures
            final(self)@ == old(self)@.publish(message@),
    {
        proof {
            use_type_invariant(&*self);
        }
        let mut held: VecDeque<String> = VecDeque::new();
        std::mem::swap(&mut self.held, &mut held);
        let ghost before = held@;
        if held.len() >= self.capacity {
            held.pop_front();
            self.dropped = self.dropped + 1;
            assert(texts(held@) == texts(before).drop_first());
        }
        let ghost kept = held@;
        held.push_back(message);
        assert(texts(held@) == texts(kept).push(message@));
        std::mem::swap(&mut self.held, &mut held);
    }

    /// Subscribes: the holder of the result reads what is published from
    /// now on.
    pub fn subscribe(&self) -> (r: Subscription)
        ensures
            r@ == self@.subscribe(),
    {
        proof {
            use_type_invariant(self);
        }
        Subscription { cursor: self.dropped + self.held.len() as u64 }
    }

    /// Hands the next message to a subscriber, if one waits for it, and
    /// moves the subscription on. A subscriber that has fallen behind goes
    /// on with the oldest message that is held.
    pub fn receive(&self, subscription: &mut Subscription) -> (r: Option<String>)
        ensures
            (
                match r {
                    Some(message) => Some(message@),
                    None => None,
                },
                final(subscription)@,
            ) == self@.receive(old(subscription)@),
    {
        proof {
            use_type_invariant(self);
        }
        let next = if subscription.cursor < self.dropped {
            self.dropped
        } else {
            subscription.cursor
        };
        let offset = next - self.dropped;
        if offset < self.held.len() as u64 {
            let message = self.held[offset as usize].clone();
            subscription.cursor = next + 1;
            Some(message)
        } else {
            None
        }
    }
}

/// Publishing keeps a hub well formed and counts the message.
pub proof fn lemma_publish(hub: HubView, message: Seq<char>)
    requires
        hub.wf(),
    ensures
        hub.publish(message).wf(),
        hub.publish(message).capacity == hub.capacity,
        hub.publish(message).published() == hub.published() + 1,
        hub.publish(message).held.last() == message,
{
}

/// Publishing loses nothing for a subscriber that has less than a full hub
/// still to read: the new message is added behind what it has to read. A
/// subscriber that has the full hub still to read loses the oldest message.
pub proof fn lemma_publish_backlog(hub: HubView, message: Seq<char>, cursor: nat)
    requires
        hub.wf(),
        cursor <= hub.published(),
    ensures
        hub.backlog(cursor).len() < hub.capacity ==> hub.publish(message).backlog(cursor)
            == hub.backlog(cursor).push(message),
        hub.backlog(cursor).len() == hub.capacity ==> hub.publish(message).backlog(cursor)
            == hub.backlog(cursor).drop_first().push(message),
        hub.publish(message).backlog(cursor).last() == message,
{
    let after = hub.publish(message);
    if hub.held.len() < hub.capacity {
        assert(after.backlog(cursor) =~= hub.backlog(cursor).push(message));
    } else if hub.backlog(cursor).len() < hub.capacity {
        assert(after.backlog(cursor) =~= hub.backlog(cursor).push(message));
    } else {
        assert(after.backlog(cursor) =~= hub.backlog(cursor).drop_first().push(message));
    }
}

/// All who subscribed before a message was published get that message, and
/// each the same: it is the last that each of them has to read, and the
/// next that is received by those who had nothing left to read.
pub proof fn lemma_fan_out(hub: HubView, message: Seq<char>, cursors: Seq<nat>)
    requires
        hub.wf(),
        forall|i: int| 0 <= i < cursors.len() ==> #[trigger] cursors[i] <= hub.subscribe(),
    ensures
        forall|i: int|
            0 <= i < cursors.len() ==> (#[trigger] hub.publish(message).backlog(cursors[i])).len()
                > 0 && hub.publish(message).backlog(cursors[i]).last() == message,
        forall|i: int|
            0 <= i < cursors.len() && cursors[i] == hub.subscribe() ==> (#[trigger] hub.publish(
                message,
            ).receive(cursors[i])).0 == Some(message),
{
    assert forall|i: int| 0 <= i < cursors.len() implies (#[trigger] hub.publish(message).backlog(
        cursors[i],
    )).len() > 0 && hub.publish(message).backlog(cursors[i]).last() == message by {
        lemma_publish_backlog(hub, message, cursors[i]);
    }
    assert forall|i: int| 0 <= i < cursors.len() && cursors[i] == hub.subscribe() implies (
    #[trigger] hub.publish(message).receive(cursors[i])).0 == Some(message) by {
        lemma_publish_backlog(hub, message, cursors[i]);
        assert(hub.backlog(cursors[i]) =~= Seq::<Seq<char>>::empty());
    }
}

/// Whoever subscribes after a message was published has nothing to read
/// yet: the earlier message is not replayed.
pub proof fn lemma_no_replay(hub: HubView, message: Seq<char>)
    requires
        hub.wf(),
    ensures
        hub.publish(message).receive(hub.publish(message).subscribe()).0 is None,
        hub.publish(message).backlog(hub.publish(message).subscribe()).len() == 0,
        hub.published() < hub.publish(message).subscribe(),
{
}

/// What a subscriber reads was published after it subscribed: of the
/// messages that follow its subscription it has the last ones to read, as
/// many as the hub holds, and none that came before.
pub proof fn lemma_backlog_is_later(hub: HubView, later: Seq<Seq<char>>)
    requires
        hub.wf(),
    ensures
        hub.publish_all(later).wf(),
        hub.publish_all(later).published() == hub.published() + later.len(),
        hub.publish_all(later).capacity == hub.capacity,
        ({
            let backlog = hub.publish_all(later).backlog(hub.subscribe());
            &&& backlog.len() == if later.len() <= hub.capacity {
                later.len()
            } else {
                hub.capacity
            }
            &&& backlog == later.skip(later.len() - backlog.len())
        }),
    decreases later.len(),
{
    let cursor = hub.subscribe();
    if later.len() == 0 {
        assert(hub.backlog(cursor) =~= later.skip(0));
    } else {
        let before = hub.publish_all(later.drop_last());
        lemma_backlog_is_later(hub, later.drop_last());
        lemma_publish_backlog(before, later.last(), cursor);
        let old_backlog = before.backlog(cursor);
        let new_backlog = before.publish(later.last()).backlog(cursor);
        assert(new_backlog =~= later.skip(later.len() - new_backlog.len()));
    }
}

/// A subscriber reads in the order of publication: what it receives is the
/// first of what it has to read, and the rest is left for later.
pub proof fn lemma_receive_in_order(hub: HubView, cursor: nat)
    requires
        hub.wf(),
        hub.backlog(cursor).len() > 0,
    ensures
        hub.receive(cursor).0 == Some(hub.backlog(cursor).first()),
        hub.backlog(hub.receive(cursor).1) == hub.backlog(cursor).drop_first(),
{
    assert(hub.backlog(hub.receive(cursor).1) =~= hub.backlog(cursor).drop_first());
}

} // verus!
