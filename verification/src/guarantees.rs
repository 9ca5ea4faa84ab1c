//! What the relay guarantees across its parts.
//!
//! These are statements about the subscription manager, the broker and the
//! session together, proved from the contracts of their operations.

use vstd::prelude::*;
use crate::broker::{BrokerView, SubscriberView};
use crate::channel::{channel_of, lemma_channel_of_injective};
use crate::error::{Reach, RelayError};
use crate::protocol::{MessageView, ProtocolView};
use crate::session::{ack_step, frame_step, publish_step, ActionView, Phase};
use crate::subscription::{plan_of, Subscription};

verus! {

/// Whether the broker holds for `id` exactly the subscription that its
/// manager is in: the one active channel, or none.
pub open spec fn in_step(broker: BrokerView, id: int, state: Subscription) -> bool {
    &&& broker.connected(id)
    &&& broker.subscribers[id].channels == match state.active_channel() {
        Some(channel) => Set::<Seq<char>>::empty().insert(channel),
        None => Set::<Seq<char>>::empty(),
    }
}

/// The broker after `id` took its `n` oldest deliveries, one by one.
pub open spec fn drained(broker: BrokerView, id: int, n: nat) -> BrokerView
    decreases n,
{
    if n == 0 {
        broker
    } else {
        drained(broker, id, (n - 1) as nat).take(id)
    }
}

/// A connection has at most one active subscription: a switch leaves the
/// connection subscribed to the new room's channel and to nothing else, and a
/// new connection is subscribed to nothing.
pub proof fn lemma_one_subscription(broker: BrokerView, id: int, state: Subscription, room_id: i32)
    requires
        in_step(broker, id, state),
    ensures
        in_step(broker.switch(id, plan_of(state, room_id)), id, Subscription::SubscribedTo(room_id)),
        in_step(broker.connect(), broker.subscribers.len() as int, Subscription::Unsubscribed),
        forall|other: int|
            other != id && 0 <= other < broker.subscribers.len() ==> broker.switch(
                id,
                plan_of(state, room_id),
            ).subscribers[other] == broker.subscribers[other],
{
    let after = broker.switch(id, plan_of(state, room_id));
    assert(after.subscribers[id].channels =~= Set::<Seq<char>>::empty().insert(
        channel_of(room_id),
    ));
    assert(broker.connect().subscribers[broker.subscribers.len() as int].channels
        =~= Set::<Seq<char>>::empty());
}

/// The end of a session leaves nothing behind: once the channel that its
/// manager gives up at teardown is unsubscribed, the connection is subscribed
/// to nothing.
pub proof fn lemma_teardown_unsubscribes(broker: BrokerView, id: int, state: Subscription)
    requires
        in_step(broker, id, state),
    ensures
        in_step(
            match state.active_channel() {
                Some(channel) => broker.unsubscribe(id, channel),
                None => broker,
            },
            id,
            Subscription::Unsubscribed,
        ),
        !broker.disconnect(id).connected(id),
{
    match state.active_channel() {
        Some(channel) => {
            assert(broker.unsubscribe(id, channel).subscribers[id].channels
                =~= Set::<Seq<char>>::empty());
        },
        None => {},
    }
}

/// Deliveries are taken in the order in which they arrived: after `n` takes
/// the queue has lost its `n` oldest entries, and the next one is in front.
pub proof fn lemma_drained(broker: BrokerView, id: int, n: nat)
    requires
        broker.connected(id),
        n <= broker.subscribers[id].queue.len(),
    ensures
        drained(broker, id, n).connected(id),
        drained(broker, id, n).subscribers.len() == broker.subscribers.len(),
        drained(broker, id, n).subscribers[id].queue == broker.subscribers[id].queue.skip(n as int),
        drained(broker, id, n).subscribers[id].channels == broker.subscribers[id].channels,
        n < broker.subscribers[id].queue.len() ==> drained(broker, id, n).front(id) == Some(
            broker.subscribers[id].queue[n as int],
        ),
        forall|other: int|
            other != id && 0 <= other < broker.subscribers.len() ==> drained(
                broker,
                id,
                n,
            ).subscribers[other] == broker.subscribers[other],
    decreases n,
{
    if n > 0 {
        lemma_drained(broker, id, (n - 1) as nat);
        let before = drained(broker, id, (n - 1) as nat);
        assert(before.front(id) is Some);
        assert(before.take(id).subscribers[id].queue =~= broker.subscribers[id].queue.skip(
            n as int,
        ));
    } else {
        assert(broker.subscribers[id].queue.skip(0) =~= broker.subscribers[id].queue);
    }
}

/// Round trip: once a switch to a room is acknowledged, whatever is
/// published to that room's channel arrives at the connection. It stands at
/// the end of the connection's queue, and the forwarder, which takes the queue
/// in order, has it in front after the deliveries that came before.
pub proof fn lemma_round_trip(
    broker: BrokerView,
    id: int,
    state: Subscription,
    room_id: i32,
    payload: Seq<u8>,
)
    requires
        broker.connected(id),
    ensures
        ({
            let switched = broker.switch(id, plan_of(state, room_id));
            let published = switched.publish(channel_of(room_id), payload);
            let earlier = switched.subscribers[id].queue;
            &&& published.subscribers[id].queue == earlier.push(payload)
            &&& drained(published, id, earlier.len()).front(id) == Some(payload)
        }),
{
    let switched = broker.switch(id, plan_of(state, room_id));
    let published = switched.publish(channel_of(room_id), payload);
    assert(switched.subscribers[id].channels.contains(channel_of(room_id)));
    lemma_drained(published, id, switched.subscribers[id].queue.len());
}

/// No stale deliveries: a connection that switched from one room to another
/// receives nothing that is published to the room it left.
pub proof fn lemma_no_stale_delivery(
    broker: BrokerView,
    id: int,
    left: i32,
    entered: i32,
    payload: Seq<u8>,
)
    requires
        in_step(broker, id, Subscription::SubscribedTo(left)),
        left != entered,
    ensures
        ({
            let switched = broker.switch(id, plan_of(Subscription::SubscribedTo(left), entered));
            switched.publish(channel_of(left), payload).subscribers[id] == switched.subscribers[id]
        }),
{
    lemma_channel_of_injective(left, entered);
    lemma_one_subscription(broker, id, Subscription::SubscribedTo(left), entered);
}

/// Fan-out: a publication reaches every connection subscribed to its
/// channel with the same payload, and changes no other connection. Two
/// publications on a channel reach each subscriber in the order in which they
/// were made.
pub proof fn lemma_fan_out(broker: BrokerView, channel: Seq<char>, first: Seq<u8>, second: Seq<u8>)
    ensures
        broker.publish(channel, first).subscribers.len() == broker.subscribers.len(),
        forall|id: int|
            0 <= id < broker.subscribers.len() && broker.subscribers[id].receives(channel)
                ==> #[trigger] broker.publish(channel, first).subscribers[id] == (SubscriberView {
                queue: broker.subscribers[id].queue.push(first),
                ..broker.subscribers[id]
            }),
        forall|id: int|
            0 <= id < broker.subscribers.len() && !broker.subscribers[id].receives(channel)
                ==> #[trigger] broker.publish(channel, first).subscribers[id]
                == broker.subscribers[id],
        forall|id: int|
            0 <= id < broker.subscribers.len() && broker.subscribers[id].receives(channel)
                ==> #[trigger] broker.publish(channel, first).publish(
                channel,
                second,
            ).subscribers[id].queue == broker.subscribers[id].queue.push(first).push(second),
{
}

/// A channel that nobody receives has no receivers among any number of
/// connections, and the other way round.
pub proof fn lemma_receivers(broker: BrokerView, channel: Seq<char>, upto: int)
    requires
        0 <= upto <= broker.subscribers.len(),
    ensures
        broker.receivers(channel, upto) <= upto,
        broker.receivers(channel, upto) == 0 <==> forall|id: int|
            0 <= id < upto ==> !(#[trigger] broker.subscribers[id]).receives(channel),
    decreases upto,
{
    if upto > 0 {
        lemma_receivers(broker, channel, upto - 1);
    }
}

/// Publishing to a room that nobody is subscribed to changes nothing: it
/// is delivered to no connection, and it is no failure.
pub proof fn lemma_publish_without_subscribers(
    broker: BrokerView,
    channel: Seq<char>,
    payload: Seq<u8>,
)
    requires
        broker.receivers(channel, broker.subscribers.len() as int) == 0,
    ensures
        broker.publish(channel, payload) == broker,
{
    lemma_receivers(broker, channel, broker.subscribers.len() as int);
    assert(broker.publish(channel, payload).subscribers =~= broker.subscribers);
}

/// A join is a barrier: the session that takes one asks for the room switch
/// and is not ready for another frame until the switch is acknowledged. Only
/// then is the arrival announced, in the room that was joined.
pub proof fn lemma_join_is_a_barrier(room_id: i32, uuid: uuid::Uuid, username: Seq<char>, unixtime: u64)
    ensures
        ({
            let join = ProtocolView::JoinRoom { room_id, uuid, username, unixtime };
            &&& frame_step(Some(join)).1 == (ActionView::SwitchRoom { room_id })
            &&& frame_step(Some(join)).0 == (Phase::Switching {
                room_id,
                announcement: ProtocolView::UserJoined { uuid, username, room_id, unixtime },
            })
            &&& !(frame_step(Some(join)).0 is Ready)
        }),
{
}

/// A publication is a barrier: the session that takes a posted message asks
/// for its publication and is not ready for another frame until the outcome
/// is reported; the same holds of the announcement after a join. So of two
/// messages that a connection posts, the second is published after the first
/// is done, and every subscriber of the room has them in that order.
pub proof fn lemma_publication_is_a_barrier(
    message: MessageView,
    broker: BrokerView,
    channel: Seq<char>,
    first: Seq<u8>,
    second: Seq<u8>,
)
    ensures
        ({
            let post = ProtocolView::PostMessage { message };
            &&& frame_step(Some(post)).1 == (ActionView::Publish {
                room_id: message.room_id,
                message: post,
            })
            &&& frame_step(Some(post)).0 == Phase::Publishing
            &&& !(frame_step(Some(post)).0 is Ready)
        }),
        forall|room_id: i32, announcement: ProtocolView|
            (#[trigger] ack_step(room_id, announcement, Ok(()))).0 == Phase::Publishing,
        publish_step(true) == ActionView::Idle,
        !publish_step(false).touches_broker(),
        forall|id: int|
            0 <= id < broker.subscribers.len() && broker.subscribers[id].receives(channel)
                ==> #[trigger] broker.publish(channel, first).publish(
                channel,
                second,
            ).subscribers[id].queue == broker.subscribers[id].queue.push(first).push(second),
{
}

/// A frame that does not decode is contained: the session stays ready for the
/// next frame, the failure is only reported, and the action reaches neither
/// the broker nor, through it, any other connection.
pub proof fn lemma_malformed_frame_is_contained()
    ensures
        frame_step(None).0 == Phase::Ready,
        frame_step(None).1 == (ActionView::Report { error: RelayError::Decode }),
        !frame_step(None).1.touches_broker(),
        RelayError::Decode.spec_reach() == Reach::Dropped,
{
}

} // verus!
