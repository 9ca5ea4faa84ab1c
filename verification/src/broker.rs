//! An in-process publish/subscribe broker.
//!
//! The relay leaves fan-out to a broker: a publication on a channel reaches
//! every connection subscribed to that channel at that moment, and nobody
//! else. `LocalBroker` is that contract for sessions that share a process. Each
//! connection has a set of subscribed channels and a queue of deliveries that
//! its outbound forwarder drains in arrival order.

use vstd::prelude::*;
use vstd::string::StringExecFns;
use crate::error::{BrokerOperation, RelayError};
use crate::subscription::{SwitchPlan, SwitchPlanView};

verus! {

/// One connection as the broker sees it.
pub struct SubscriberView {
    /// Whether the connection is still open.
    pub open: bool,
    /// The channels it is subscribed to.
    pub channels: Set<Seq<char>>,
    /// The payloads delivered to it and not yet taken, oldest first.
    pub queue: Seq<Seq<u8>>,
}

/// The mathematical value of a `LocalBroker`: its connections by id.
pub struct BrokerView {
    pub subscribers: Seq<SubscriberView>,
}

impl SubscriberView {
    /// Whether a publication on `channel` is delivered to this connection.
    pub open spec fn receives(self, channel: Seq<char>) -> bool {
        self.open && self.channels.contains(channel)
    }

    /// This connection after a publication of `payload` on `channel`.
    pub open spec fn deliver(self, channel: Seq<char>, payload: Seq<u8>) -> SubscriberView {
        if self.receives(channel) {
            SubscriberView { queue: self.queue.push(payload), ..self }
        } else {
            self
        }
    }
}

impl BrokerView {
    /// Whether `id` names an open connection.
    pub open spec fn connected(self, id: int) -> bool {
        0 <= id < self.subscribers.len() && self.subscribers[id].open
    }

    /// The broker after a new connection was opened. Its id is the number of
    /// connections before.
    pub open spec fn connect(self) -> BrokerView {
        BrokerView {
            subscribers: self.subscribers.push(
                SubscriberView { open: true, channels: Set::empty(), queue: Seq::empty() },
            ),
        }
    }

    /// The broker after `id` subscribed to `channel`. Unknown and closed
    /// connections change nothing.
    pub open spec fn subscribe(self, id: int, channel: Seq<char>) -> BrokerView {
        if self.connected(id) {
            let subscriber = self.subscribers[id];
            BrokerView {
                subscribers: self.subscribers.update(
                    id,
                    SubscriberView { channels: subscriber.channels.insert(channel), ..subscriber },
                ),
            }
        } else {
            self
        }
    }

    /// The broker after `id` unsubscribed from `channel`. Where `id` was not
    /// subscribed to it, nothing changes.
    pub open spec fn unsubscribe(self, id: int, channel: Seq<char>) -> BrokerView {
        if self.connected(id) {
            let subscriber = self.subscribers[id];
            BrokerView {
                subscribers: self.subscribers.update(
                    id,
                    SubscriberView { channels: subscriber.channels.remove(channel), ..subscriber },
                ),
            }
        } else {
            self
        }
    }

    /// The broker after the operations of a room switch were performed for
    /// `id`: first the unsubscribe, where the plan has one, then the subscribe.
    pub open spec fn switch(self, id: int, plan: SwitchPlanView) -> BrokerView {
        let left = match plan.unsubscribe {
            Some(channel) => self.unsubscribe(id, channel),
            None => self,
        };
        left.subscribe(id, plan.subscribe)
    }

    /// The broker after `payload` was published on `channel`: every
    /// connection that receives the channel has the payload at the end of its
    /// queue, and every other connection is as it was.
    pub open spec fn publish(self, channel: Seq<char>, payload: Seq<u8>) -> BrokerView {
        BrokerView {
            subscribers: Seq::new(
                self.subscribers.len(),
                |i: int| self.subscribers[i].deliver(channel, payload),
            ),
        }
    }

    /// The number of connections among the first `upto` that receive `channel`.
    pub open spec fn receivers(self, channel: Seq<char>, upto: int) -> nat
        decreases upto,
    {
        if upto <= 0 {
            0
        } else {
            self.receivers(channel, upto - 1) + if self.subscribers[upto - 1].receives(channel) {
                1nat
            } else {
                0nat
            }
        }
    }

    /// The oldest delivery that waits for `id`, if any.
    pub open spec fn front(self, id: int) -> Option<Seq<u8>> {
        if self.connected(id) && self.subscribers[id].queue.len() > 0 {
            Some(self.subscribers[id].queue[0])
        } else {
            None
        }
    }

    /// The broker after `id` took its oldest delivery.
    pub open spec fn take(self, id: int) -> BrokerView {
        if self.front(id) is Some {
            let subscriber = self.subscribers[id];
            BrokerView {
                subscribers: self.subscribers.update(
                    id,
                    SubscriberView { queue: subscriber.queue.skip(1), ..subscriber },
                ),
            }
        } else {
            self
        }
    }

    /// The broker after `id` was closed: its subscriptions and its queue are
    /// gone, and every other connection is as it was.
    pub open spec fn disconnect(self, id: int) -> BrokerView {
        if self.connected(id) {
            BrokerView {
                subscribers: self.subscribers.update(
                    id,
                    SubscriberView { open: false, channels: Set::empty(), queue: Seq::empty() },
                ),
            }
        } else {
            self
        }
    }
}

/// Whether `name` is one of `channels`.
spec fn listed(channels: Seq<String>, name: Seq<char>) -> bool {
    exists|i: int| 0 <= i < channels.len() && (#[trigger] channels[i])@ == name
}

struct Subscriber {
    open: bool,
    channels: Vec<String>,
    queue: Vec<Vec<u8>>,
}

impl View for Subscriber {
    type V = SubscriberView;

    closed spec fn view(&self) -> SubscriberView {
        SubscriberView {
            open: self.open,
            channels: Set::new(|name: Seq<char>| listed(self.channels@, name)),
            queue: Seq::new(self.queue@.len(), |i: int| self.queue@[i]@),
        }
    }
}

impl Subscriber {
    fn subscribed_to(&self, name: &String) -> (found: bool)
        ensures
            found == self@.channels.contains(name@),
    {
        let mut i: usize = 0;
        while i < self.channels.len()
            invariant
                i <= self.channels.len(),
                forall|k: int| 0 <= k < i ==> self.channels@[k]@ != name@,
            decreases self.channels.len() - i,
        {
            if self.channels[i] == *name {
                assert(listed(self.channels@, name@));
                return true;
            }
            i += 1;
        }
        assert(!listed(self.channels@, name@));
        false
    }
}

/// An in-process broker.
pub struct LocalBroker {
    subscribers: Vec<Subscriber>,
}

impl View for LocalBroker {
    type V = BrokerView;

    closed spec fn view(&self) -> BrokerView {
        BrokerView {
            subscribers: Seq::new(self.subscribers@.len(), |i: int| self.subscribers@[i]@),
        }
    }
}

impl LocalBroker {
    /// A broker without connections.
    pub fn new() -> (broker: Self)
        ensures
            broker@ == (BrokerView { subscribers: Seq::empty() }),
    {
        let broker = LocalBroker { subscribers: Vec::new() };
        assert(broker@.subscribers =~= Seq::empty());
        broker
    }

    /// Opens a connection and returns its id.
    pub fn connect(&mut self) -> (id: usize)
        ensures
            id == old(self)@.subscribers.len(),
            final(self)@ == old(self)@.connect(),
    {
        let id = self.subscribers.len();
        self.subscribers.push(Subscriber { open: true, channels: Vec::new(), queue: Vec::new() });
        assert(self.subscribers@[id as int]@.channels =~= Set::empty());
        assert(self.subscribers@[id as int]@.queue =~= Seq::empty());
        assert(self@.subscribers =~= old(self)@.connect().subscribers);
        id
    }

    /// Whether `id` names an open connection.
    pub fn is_connected(&self, id: usize) -> (connected: bool)
        ensures
            connected == self@.connected(id as int),
    {
        id < self.subscribers.len() && self.subscribers[id].open
    }

    /// Whether `id` is an open connection subscribed to `channel`.
    pub fn is_subscribed(&self, id: usize, channel: &str) -> (subscribed: bool)
        ensures
            subscribed == (self@.connected(id as int) && self@.subscribers[id as int].channels.contains(
                channel@,
            )),
    {
        if id < self.subscribers.len() && self.subscribers[id].open {
            let name = String::from_str(channel);
            self.subscribers[id].subscribed_to(&name)
        } else {
            false
        }
    }

    /// Subscribes `id` to `channel`. Subscribing twice is subscribing once.
    /// Fails, and changes nothing, where `id` is not an open connection.
    pub fn subscribe(&mut self, id: usize, channel: &str) -> (result: Result<(), RelayError>)
        ensures
            final(self)@ == old(self)@.subscribe(id as int, channel@),
            result == if old(self)@.connected(id as int) {
                Ok::<(), RelayError>(())
            } else {
                Err(RelayError::Broker(BrokerOperation::Subscribe))
            },
    {
        if !self.is_connected(id) {
            return Err(RelayError::Broker(BrokerOperation::Subscribe));
        }
        let name = String::from_str(channel);
        let ghost before = self.subscribers@[id as int];
        if !self.subscribers[id].subscribed_to(&name) {
            self.subscribers[id].channels.push(name);
            let ghost after = self.subscribers@[id as int];
            assert(after.channels@ == before.channels@.push(name));
            assert forall|other: Seq<char>|
                listed(after.channels@, other) == (listed(before.channels@, other) || other
                    == channel@) by {
                if listed(before.channels@, other) {
                    let i = choose|i: int|
                        0 <= i < before.channels@.len() && (#[trigger] before.channels@[i])@
                            == other;
                    assert(after.channels@[i]@ == other);
                }
                if other == channel@ {
                    assert(after.channels@[before.channels@.len() as int]@ == other);
                }
            }
        }
        let ghost after = self.subscribers@[id as int];
        assert(after@.channels =~= before@.channels.insert(channel@));
        assert(after@.queue =~= before@.queue);
        assert(self@.subscribers =~= old(self)@.subscribe(id as int, channel@).subscribers);
        Ok(())
    }

    /// Unsubscribes `id` from `channel`. Where `id` is not subscribed to it
    /// nothing happens; that is no error.
    pub fn unsubscribe(&mut self, id: usize, channel: &str) -> (result: Result<(), RelayError>)
        ensures
            final(self)@ == old(self)@.unsubscribe(id as int, channel@),
            result is Ok,
    {
        if !self.is_connected(id) {
            return Ok(());
        }
        let name = String::from_str(channel);
        let ghost before = self.subscribers@[id as int];
        let mut kept: Vec<String> = Vec::new();
        let mut i: usize = 0;
        while i < self.subscribers[id].channels.len()
            invariant
                id < self.subscribers.len(),
                self.subscribers@ == old(self).subscribers@,
                name@ == channel@,
                i <= self.subscribers@[id as int].channels.len(),
                forall|other: Seq<char>|
                    listed(kept@, other) == (other != channel@ && listed(
                        self.subscribers@[id as int].channels@.take(i as int),
                        other,
                    )),
            decreases self.subscribers@[id as int].channels.len() - i,
        {
            let ghost all = self.subscribers@[id as int].channels@;
            let ghost kept_before = kept@;
            let current = self.subscribers[id].channels[i].clone();
            if !(current == name) {
                kept.push(current);
            }
            assert forall|other: Seq<char>|
                listed(kept@, other) == (other != channel@ && listed(
                    all.take(i + 1),
                    other,
                )) by {
                if listed(all.take(i + 1), other) {
                    let k = choose|k: int|
                        0 <= k < all.take(i + 1).len() && (#[trigger] all.take(i + 1)[k])@
                            == other;
                    if k < i {
                        assert(all.take(i as int)[k]@ == other);
                    } else if other != channel@ {
                        assert(kept@[kept_before.len() as int]@ == other);
                    }
                }
                if listed(all.take(i as int), other) {
                    let k = choose|k: int|
                        0 <= k < all.take(i as int).len() && (#[trigger] all.take(i as int)[k])@
                            == other;
                    assert(all.take(i + 1)[k]@ == other);
                }
                if listed(kept_before, other) {
                    let k = choose|k: int|
                        0 <= k < kept_before.len() && (#[trigger] kept_before[k])@ == other;
                    assert(kept@[k]@ == other);
                }
                if listed(kept@, other) {
                    let k = choose|k: int| 0 <= k < kept@.len() && (#[trigger] kept@[k])@ == other;
                    if k < kept_before.len() {
                        assert(kept_before[k]@ == other);
                    } else {
                        assert(all.take(i + 1)[i as int]@ == other);
                    }
                }
            }
            i += 1;
        }
        assert(before.channels@.take(i as int) =~= before.channels@);
        self.subscribers[id].channels = kept;
        let ghost after = self.subscribers@[id as int];
        assert(after@.channels =~= before@.channels.remove(channel@));
        assert(after@.queue =~= before@.queue);
        assert(self@.subscribers =~= old(self)@.unsubscribe(id as int, channel@).subscribers);
        Ok(())
    }

    /// Performs a room switch for `id`: unsubscribes the channel that the plan
    /// leaves, where there is one, then subscribes the channel that it enters.
    /// Returns whether the subscribe succeeded, which is what the switch's
    /// acknowledgement depends on.
    pub fn switch(&mut self, id: usize, plan: &SwitchPlan) -> (subscribed: bool)
        ensures
            final(self)@ == old(self)@.switch(id as int, plan@),
            subscribed == old(self)@.connected(id as int),
    {
        match &plan.unsubscribe {
            Some(channel) => {
                let _ = self.unsubscribe(id, channel.as_str());
            },
            None => {},
        }
        match self.subscribe(id, plan.subscribe.as_str()) {
            Ok(_) => true,
            Err(_) => false,
        }
    }

    /// Publishes `payload` on `channel` and returns the number of connections
    /// it was delivered to. Publishing never fails, whoever listens or not.
    pub fn publish(&mut self, channel: &str, payload: &Vec<u8>) -> (result: Result<usize, RelayError>)
        ensures
            final(self)@ == old(self)@.publish(channel@, payload@),
            result == Ok::<usize, RelayError>(
                old(self)@.receivers(channel@, old(self)@.subscribers.len() as int) as usize,
            ),
    {
        let name = String::from_str(channel);
        let mut delivered: usize = 0;
        let mut i: usize = 0;
        let ghost goal = old(self)@.publish(channel@, payload@);
        while i < self.subscribers.len()
            invariant
                i <= self.subscribers.len(),
                self.subscribers.len() == old(self).subscribers.len(),
                name@ == channel@,
                goal == old(self)@.publish(channel@, payload@),
                delivered == old(self)@.receivers(channel@, i as int),
                delivered <= i,
                forall|k: int| 0 <= k < i ==> self.subscribers@[k]@ == goal.subscribers[k],
                forall|k: int|
                    i <= k < self.subscribers.len() ==> self.subscribers@[k] == old(
                        self,
                    ).subscribers@[k],
            decreases self.subscribers.len() - i,
        {
            let ghost before = self.subscribers@[i as int];
            if self.subscribers[i].open && self.subscribers[i].subscribed_to(&name) {
                self.subscribers[i].queue.push(payload.clone());
                delivered += 1;
                let ghost after = self.subscribers@[i as int];
                assert(after@.queue =~= before@.queue.push(payload@));
                assert(after@.channels =~= before@.channels);
            }
            assert(self.subscribers@[i as int]@ == before@.deliver(channel@, payload@));
            i += 1;
        }
        assert(self@.subscribers =~= goal.subscribers);
        Ok(delivered)
    }

    /// Takes the oldest delivery that waits for `id`. `None` where nothing
    /// waits or `id` is not an open connection.
    pub fn next_delivery(&mut self, id: usize) -> (delivery: Option<Vec<u8>>)
        ensures
            match delivery {
                Some(payload) => Some(payload@),
                None => None,
            } == old(self)@.front(id as int),
            final(self)@ == old(self)@.take(id as int),
    {
        if !self.is_connected(id) || self.subscribers[id].queue.len() == 0 {
            return None;
        }
        let ghost before = self.subscribers@[id as int];
        let payload = self.subscribers[id].queue.remove(0);
        let ghost after = self.subscribers@[id as int];
        assert(after@.queue =~= before@.queue.skip(1));
        assert(after@.channels =~= before@.channels);
        assert(self@.subscribers =~= old(self)@.take(id as int).subscribers);
        Some(payload)
    }

    /// The number of deliveries that wait for `id`.
    pub fn waiting(&self, id: usize) -> (count: usize)
        ensures
            count == if self@.connected(id as int) {
                self@.subscribers[id as int].queue.len()
            } else {
                0
            },
    {
        if self.is_connected(id) {
            self.subscribers[id].queue.len()
        } else {
            0
        }
    }

    /// Closes `id`: drops its subscriptions and whatever still waits for it.
    /// No other connection is touched.
    pub fn disconnect(&mut self, id: usize)
        ensures
            final(self)@ == old(self)@.disconnect(id as int),
    {
        if !self.is_connected(id) {
            return ;
        }
        self.subscribers[id].open = false;
        self.subscribers[id].channels = Vec::new();
        self.subscribers[id].queue = Vec::new();
        let ghost after = self.subscribers@[id as int];
        assert(after@.channels =~= Set::empty());
        assert(after@.queue =~= Seq::empty());
        assert(self@.subscribers =~= old(self)@.disconnect(id as int).subscribers);
    }
}

} // verus!
