//! The room subscription manager of one connection.
//!
//! A connection has at most one active broker subscription. The manager holds
//! that subscription's state and serves room switches one at a time, in the
//! order in which they were requested: each switch unsubscribes the current
//! channel, subscribes the new one and is then acknowledged. The manager
//! decides; its owner talks to the broker and reports back.

use vstd::prelude::*;
use crate::channel::{channel_name, channel_of};
use crate::error::{BrokerOperation, RelayError};

verus! {

/// What a connection is subscribed to.
#[derive(Clone, Copy, Debug, PartialEq, Eq, Structural)]
pub enum Subscription {
    Unsubscribed,
    SubscribedTo(i32),
}

impl Subscription {
    /// The channel that is active in this state, if any.
    pub open spec fn active_channel(self) -> Option<Seq<char>> {
        match self {
            Subscription::Unsubscribed => None,
            Subscription::SubscribedTo(room_id) => Some(channel_of(room_id)),
        }
    }
}

/// The broker operations of one room switch, in the order to perform them.
#[derive(Debug, PartialEq)]
pub struct SwitchPlan {
    /// The room switched to.
    pub room_id: i32,
    /// The channel to unsubscribe first, where one is active.
    pub unsubscribe: Option<String>,
    /// The channel to subscribe.
    pub subscribe: String,
}

/// The mathematical value of a `SwitchPlan`.
pub struct SwitchPlanView {
    pub room_id: i32,
    pub unsubscribe: Option<Seq<char>>,
    pub subscribe: Seq<char>,
}

impl View for SwitchPlan {
    type V = SwitchPlanView;

    open spec fn view(&self) -> SwitchPlanView {
        SwitchPlanView {
            room_id: self.room_id,
            unsubscribe: match self.unsubscribe {
                Some(name) => Some(name@),
                None => None,
            },
            subscribe: self.subscribe@,
        }
    }
}

/// The plan of a switch to `room_id` from `state`: leave the active channel,
/// whichever it is, then enter the channel of `room_id`.
pub open spec fn plan_of(state: Subscription, room_id: i32) -> SwitchPlanView {
    SwitchPlanView {
        room_id,
        unsubscribe: state.active_channel(),
        subscribe: channel_of(room_id),
    }
}

/// The acknowledgement of a switch whose subscribe succeeded or failed.
pub open spec fn ack_of(subscribed: bool) -> Result<(), RelayError> {
    if subscribed {
        Ok(())
    } else {
        Err(RelayError::Broker(BrokerOperation::Subscribe))
    }
}

/// The subscription manager of one connection.
#[derive(Debug)]
pub struct SubscriptionManager {
    state: Subscription,
    in_flight: Option<i32>,
    pending: Vec<i32>,
}

/// The mathematical value of a `SubscriptionManager`.
pub struct ManagerView {
    /// The subscription that is active at the broker.
    pub state: Subscription,
    /// The room of the switch that is under way, if one is.
    pub in_flight: Option<i32>,
    /// The rooms of the switches that wait, oldest first.
    pub pending: Seq<i32>,
}

impl View for SubscriptionManager {
    type V = ManagerView;

    closed spec fn view(&self) -> ManagerView {
        ManagerView { state: self.state, in_flight: self.in_flight, pending: self.pending@ }
    }
}

impl ManagerView {
    /// A manager with no subscription and nothing to do.
    pub open spec fn idle() -> ManagerView {
        ManagerView { state: Subscription::Unsubscribed, in_flight: None, pending: Seq::empty() }
    }

    /// Whether a switch can start: none is under way and one waits.
    pub open spec fn can_start(self) -> bool {
        self.in_flight is None && self.pending.len() > 0
    }

    /// The manager after a switch to `room_id` was requested: the request
    /// waits behind those made before.
    pub open spec fn requested(self, room_id: i32) -> ManagerView {
        ManagerView { pending: self.pending.push(room_id), ..self }
    }

    /// The manager after the oldest waiting switch was started, where one can
    /// start; else the manager as it is. The active subscription is given up
    /// at the start.
    pub open spec fn started(self) -> ManagerView {
        if self.can_start() {
            ManagerView {
                state: Subscription::Unsubscribed,
                in_flight: Some(self.pending[0]),
                pending: self.pending.skip(1),
            }
        } else {
            self
        }
    }

    /// The plan of the switch that starts next, where one can start.
    pub open spec fn next_plan(self) -> Option<SwitchPlanView> {
        if self.can_start() {
            Some(plan_of(self.state, self.pending[0]))
        } else {
            None
        }
    }

    /// The manager after the switch under way ended with its subscribe
    /// succeeding or failing: subscribed to the new room, or to none.
    pub open spec fn finished(self, subscribed: bool) -> ManagerView {
        ManagerView {
            state: if subscribed {
                Subscription::SubscribedTo(self.in_flight->0)
            } else {
                Subscription::Unsubscribed
            },
            in_flight: None,
            pending: self.pending,
        }
    }
}

impl SubscriptionManager {
    /// A manager with no subscription and nothing to do.
    pub fn new() -> (manager: Self)
        ensures
            manager@ == ManagerView::idle(),
    {
        SubscriptionManager { state: Subscription::Unsubscribed, in_flight: None, pending: Vec::new() }
    }

    /// The subscription that is active at the broker.
    pub fn state(&self) -> (state: Subscription)
        ensures
            state == self@.state,
    {
        self.state
    }

    /// Whether a switch is under way.
    pub fn is_switching(&self) -> (switching: bool)
        ensures
            switching == self@.in_flight is Some,
    {
        self.in_flight.is_some()
    }

    /// The number of switches that wait to be served.
    pub fn waiting(&self) -> (count: usize)
        ensures
            count == self@.pending.len(),
    {
        self.pending.len()
    }

    /// Queues a switch to `room_id` behind those already requested.
    pub fn request(&mut self, room_id: i32)
        ensures
            final(self)@ == old(self)@.requested(room_id),
    {
        self.pending.push(room_id);
    }

    /// Starts the oldest waiting switch, unless one is under way or none
    /// waits. The active subscription is given up at once: from here until the
    /// acknowledgement the connection counts as unsubscribed.
    pub fn next_switch(&mut self) -> (plan: Option<SwitchPlan>)
        ensures
            final(self)@ == old(self)@.started(),
            match plan {
                Some(plan) => Some(plan@),
                None => None,
            } == old(self)@.next_plan(),
    {
        if self.in_flight.is_some() || self.pending.len() == 0 {
            return None;
        }
        let room_id = self.pending.remove(0);
        assert(self.pending@ =~= old(self)@.pending.skip(1));
        let unsubscribe = match self.state {
            Subscription::SubscribedTo(old_room) => Some(channel_name(old_room)),
            Subscription::Unsubscribed => None,
        };
        self.state = Subscription::Unsubscribed;
        self.in_flight = Some(room_id);
        Some(SwitchPlan { room_id, unsubscribe, subscribe: channel_name(room_id) })
    }

    /// Ends the switch under way with the outcome of its subscribe, and
    /// returns the acknowledgement for the requester. On success the new room
    /// is active. On failure nothing is: the old subscription is already gone,
    /// and the acknowledgement says so.
    pub fn finish_switch(&mut self, subscribed: bool) -> (ack: Result<(), RelayError>)
        requires
            old(self)@.in_flight is Some,
        ensures
            ack == ack_of(subscribed),
            final(self)@ == old(self)@.finished(subscribed),
    {
        let room_id = match self.in_flight {
            Some(room_id) => room_id,
            None => 0,
        };
        self.in_flight = None;
        if subscribed {
            self.state = Subscription::SubscribedTo(room_id);
            Ok(())
        } else {
            self.state = Subscription::Unsubscribed;
            Err(RelayError::Broker(BrokerOperation::Subscribe))
        }
    }

    /// Ends the manager with its session: gives up whatever waits or is under
    /// way, and returns the channel to unsubscribe, if one is active.
    pub fn teardown(&mut self) -> (unsubscribe: Option<String>)
        ensures
            match unsubscribe {
                Some(name) => Some(name@),
                None => None,
            } == old(self)@.state.active_channel(),
            final(self)@ == ManagerView::idle(),
    {
        let unsubscribe = match self.state {
            Subscription::SubscribedTo(room_id) => Some(channel_name(room_id)),
            Subscription::Unsubscribed => None,
        };
        self.state = Subscription::Unsubscribed;
        self.in_flight = None;
        self.pending.clear();
        unsubscribe
    }
}

/// Switches are served one at a time and in the order requested: of two
/// requests the first starts first, the second does not start while the
/// first is under way, and it starts, from whatever the first left, once the
/// first has ended.
pub proof fn lemma_switches_in_order(
    manager: ManagerView,
    first: i32,
    second: i32,
    first_subscribed: bool,
)
    requires
        manager.in_flight is None,
        manager.pending.len() == 0,
    ensures
        ({
            let both = manager.requested(first).requested(second);
            let under_way = both.started();
            let ended = under_way.finished(first_subscribed);
            &&& both.next_plan() == Some(plan_of(manager.state, first))
            &&& under_way.in_flight == Some(first)
            &&& under_way.next_plan() is None
            &&& under_way.started() == under_way
            &&& ended.next_plan() == Some(plan_of(ended.state, second))
            &&& ended.state == if first_subscribed {
                Subscription::SubscribedTo(first)
            } else {
                Subscription::Unsubscribed
            }
            &&& ended.started().in_flight == Some(second)
            &&& ended.started().pending.len() == 0
        }),
{
}

} // verus!
