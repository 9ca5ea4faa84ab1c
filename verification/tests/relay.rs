use tuitalk::broker::LocalBroker;
use tuitalk::channel::{channel_name, PRESENCE_ROOM};
use tuitalk::dispatch::{dispatch, Dispatch};
use tuitalk::error::{BrokerOperation, Reach, RelayError};
use tuitalk::protocol::{TalkMessage, TalkProtocol};
use tuitalk::session::{Action, Session};
use tuitalk::subscription::{Subscription, SubscriptionManager};
use uuid::Uuid;

fn encode(message: &TalkProtocol) -> Vec<u8> {
    format!("{:?}", message).into_bytes()
}

struct Peer {
    id: usize,
    session: Session,
    manager: SubscriptionManager,
    /// What was written to this peer's transport.
    sent: Vec<TalkProtocol>,
    /// What was logged for this peer.
    reported: Vec<RelayError>,
}

fn accept(broker: &mut LocalBroker) -> Peer {
    Peer {
        id: broker.connect(),
        session: Session::new(),
        manager: SubscriptionManager::new(),
        sent: Vec::new(),
        reported: Vec::new(),
    }
}

/// Performs what a session asks for against the in-process broker, until it
/// asks for nothing more.
fn perform(broker: &mut LocalBroker, peer: &mut Peer, first: Action) {
    let mut action = first;
    loop {
        action = match action {
            Action::Idle => return,
            Action::SwitchRoom { room_id } => {
                peer.manager.request(room_id);
                let plan = peer.manager.next_switch().expect("a switch waits");
                assert_eq!(plan.room_id, room_id);
                let subscribed = broker.switch(peer.id, &plan);
                let ack = peer.manager.finish_switch(subscribed);
                // The barrier: no frame is taken before the acknowledgement.
                assert!(!peer.session.is_ready());
                assert!(peer.session.is_switching());
                peer.session.on_switch_ack(ack)
            }
            Action::Publish { room_id, message } => {
                let published = broker.publish(&channel_name(room_id), &encode(&message)).is_ok();
                // The barrier: no frame is taken before the publication is done.
                assert!(!peer.session.is_ready());
                assert!(peer.session.is_publishing());
                peer.session.on_publish_result(published)
            }
            Action::Send { message } => {
                peer.sent.push(message);
                Action::Idle
            }
            Action::Report { error } => {
                peer.reported.push(error);
                Action::Idle
            }
            Action::FetchHistory { .. } => panic!("no history store in this test"),
            Action::Teardown { cause } => {
                if let Some(error) = cause {
                    peer.reported.push(error);
                }
                if let Some(channel) = peer.manager.teardown() {
                    broker.unsubscribe(peer.id, &channel).unwrap();
                }
                broker.disconnect(peer.id);
                Action::Idle
            }
        }
    }
}

fn feed(broker: &mut LocalBroker, peer: &mut Peer, frame: TalkProtocol) {
    assert!(peer.session.is_ready());
    let action = peer.session.on_frame(Some(frame));
    perform(broker, peer, action);
    assert!(peer.session.is_ready());
}

/// Drains what the broker delivered to a peer, as its forwarder does; the
/// payload is what the peer's transport is written.
fn forwarded(broker: &mut LocalBroker, peer: &mut Peer) -> Vec<Vec<u8>> {
    let mut payloads = Vec::new();
    while let Some(payload) = broker.next_delivery(peer.id) {
        payloads.push(payload);
    }
    payloads
}

fn user(n: u128) -> Uuid {
    Uuid::from_u128(0x11111111_2222_4333_8444_000000000000 + n)
}

fn join(room_id: i32, who: u128, name: &str) -> TalkProtocol {
    TalkProtocol::JoinRoom {
        room_id,
        uuid: user(who),
        username: name.to_string(),
        unixtime: 1_700_000_000,
    }
}

fn joined(room_id: i32, who: u128, name: &str) -> TalkProtocol {
    TalkProtocol::UserJoined {
        room_id,
        uuid: user(who),
        username: name.to_string(),
        unixtime: 1_700_000_000,
    }
}

fn post(room_id: i32, who: u128, name: &str, text: &str) -> TalkProtocol {
    TalkProtocol::PostMessage {
        message: TalkMessage {
            uuid: user(who),
            username: name.to_string(),
            text: text.to_string(),
            room_id,
            unixtime: 1_700_000_100,
        },
    }
}

#[test]
fn a_join_is_announced_to_the_joiner() {
    let mut broker = LocalBroker::new();
    let mut a = accept(&mut broker);
    assert!(!broker.is_subscribed(a.id, "5"));
    feed(&mut broker, &mut a, join(5, 1, "alice"));
    assert!(broker.is_subscribed(a.id, "5"));
    assert_eq!(a.manager.state(), Subscription::SubscribedTo(5));
    assert_eq!(a.session.room(), Some(5));
    assert!(a.reported.is_empty());
    let expected = joined(5, 1, "alice");
    assert_eq!(forwarded(&mut broker, &mut a), vec![encode(&expected)]);
    assert_eq!(
        a.session.on_delivery(Some(expected.clone())),
        Action::Send { message: expected }
    );
}

#[test]
fn a_post_reaches_another_connection_in_the_room() {
    let mut broker = LocalBroker::new();
    let mut a = accept(&mut broker);
    let mut b = accept(&mut broker);
    feed(&mut broker, &mut a, join(5, 1, "alice"));
    feed(&mut broker, &mut b, join(5, 2, "bob"));
    forwarded(&mut broker, &mut a);
    forwarded(&mut broker, &mut b);

    let message = post(5, 1, "alice", "hi");
    feed(&mut broker, &mut a, message.clone());
    let to_a = forwarded(&mut broker, &mut a);
    let to_b = forwarded(&mut broker, &mut b);
    assert_eq!(to_b, vec![encode(&message)]);
    assert_eq!(to_a, to_b);
}

#[test]
fn a_switch_leaves_the_old_room_before_the_next_frame() {
    let mut broker = LocalBroker::new();
    let mut a = accept(&mut broker);
    feed(&mut broker, &mut a, join(5, 1, "alice"));
    assert_eq!(a.manager.state(), Subscription::SubscribedTo(5));

    let action = a.session.on_frame(Some(join(6, 1, "alice")));
    assert_eq!(action, Action::SwitchRoom { room_id: 6 });
    assert!(!a.session.is_ready());
    a.manager.request(6);
    let plan = a.manager.next_switch().unwrap();
    assert_eq!(plan.unsubscribe, Some("5".to_string()));
    assert_eq!(plan.subscribe, "6");
    assert_eq!(a.manager.state(), Subscription::Unsubscribed);
    assert!(broker.switch(a.id, &plan));
    assert!(!broker.is_subscribed(a.id, "5"));
    assert!(broker.is_subscribed(a.id, "6"));
    let ack = a.manager.finish_switch(true);
    assert_eq!(ack, Ok(()));
    assert_eq!(a.manager.state(), Subscription::SubscribedTo(6));
    assert!(!a.session.is_ready());
    let announce = a.session.on_switch_ack(ack);
    assert_eq!(announce, Action::Publish { room_id: 6, message: joined(6, 1, "alice") });
    assert!(a.session.is_publishing());
    assert_eq!(a.session.on_publish_result(true), Action::Idle);
    assert!(a.session.is_ready());
}

#[test]
fn a_name_change_goes_to_the_presence_channel() {
    let mut broker = LocalBroker::new();
    let mut a = accept(&mut broker);
    let mut b = accept(&mut broker);
    let mut watcher = accept(&mut broker);
    feed(&mut broker, &mut a, join(5, 1, "alice"));
    feed(&mut broker, &mut b, join(5, 2, "carol"));
    feed(&mut broker, &mut watcher, join(0, 3, "watcher"));
    forwarded(&mut broker, &mut a);
    forwarded(&mut broker, &mut b);
    forwarded(&mut broker, &mut watcher);

    let change = TalkProtocol::ChangeName {
        uuid: user(1),
        username: "bob".to_string(),
        old_username: "alice".to_string(),
        unixtime: 1_700_000_200,
    };
    feed(&mut broker, &mut a, change);
    assert_eq!(a.session.room(), Some(5));
    assert!(forwarded(&mut broker, &mut a).is_empty());
    assert!(forwarded(&mut broker, &mut b).is_empty());
    let changed = TalkProtocol::UsernameChanged {
        uuid: user(1),
        username: "bob".to_string(),
        old_username: "alice".to_string(),
        unixtime: 1_700_000_200,
    };
    assert_eq!(forwarded(&mut broker, &mut watcher), vec![encode(&changed)]);
    assert_eq!(PRESENCE_ROOM, 0);
}

#[test]
fn a_switch_is_followed_by_a_round_trip_in_every_room() {
    for room_id in [i32::MIN, -7, 0, 1, 42, i32::MAX] {
        let mut broker = LocalBroker::new();
        let mut a = accept(&mut broker);
        feed(&mut broker, &mut a, join(room_id, 1, "alice"));
        forwarded(&mut broker, &mut a);
        let payload = vec![1u8, 2, 3];
        assert_eq!(broker.publish(&room_id.to_string(), &payload), Ok(1));
        assert_eq!(broker.next_delivery(a.id), Some(payload));
    }
}

#[test]
fn nothing_from_the_old_room_arrives_after_a_switch() {
    let mut broker = LocalBroker::new();
    let mut a = accept(&mut broker);
    let mut b = accept(&mut broker);
    feed(&mut broker, &mut a, join(5, 1, "alice"));
    feed(&mut broker, &mut b, join(5, 2, "bob"));
    feed(&mut broker, &mut a, join(6, 1, "alice"));
    forwarded(&mut broker, &mut a);
    forwarded(&mut broker, &mut b);

    feed(&mut broker, &mut b, post(5, 2, "bob", "still here?"));
    assert!(forwarded(&mut broker, &mut a).is_empty());
    assert_eq!(forwarded(&mut broker, &mut b).len(), 1);
}

#[test]
fn every_subscriber_gets_the_same_payloads_in_order() {
    let mut broker = LocalBroker::new();
    let mut peers: Vec<Peer> = (0..4).map(|_| accept(&mut broker)).collect();
    for (n, peer) in peers.iter_mut().enumerate() {
        feed(&mut broker, peer, join(9, n as u128, "p"));
    }
    let mut outsider = accept(&mut broker);
    feed(&mut broker, &mut outsider, join(10, 99, "o"));
    for peer in peers.iter_mut() {
        forwarded(&mut broker, peer);
    }
    forwarded(&mut broker, &mut outsider);

    let first = post(9, 0, "p", "one");
    let second = post(9, 0, "p", "two");
    feed(&mut broker, &mut peers[0], first.clone());
    feed(&mut broker, &mut peers[0], second.clone());
    for peer in peers.iter_mut() {
        assert_eq!(forwarded(&mut broker, peer), vec![encode(&first), encode(&second)]);
    }
    assert!(forwarded(&mut broker, &mut outsider).is_empty());
}

#[test]
fn publishing_to_an_empty_room_is_no_error() {
    let mut broker = LocalBroker::new();
    let mut a = accept(&mut broker);
    assert_eq!(broker.publish("77", &vec![9u8]), Ok(0));
    assert_eq!(broker.waiting(a.id), 0);
    // A session that posts to a room nobody listens to is told nothing.
    feed(&mut broker, &mut a, post(77, 1, "alice", "anyone?"));
    assert!(a.reported.is_empty());
    assert!(a.sent.is_empty());
    assert!(forwarded(&mut broker, &mut a).is_empty());
}

#[test]
fn a_malformed_frame_is_dropped_and_the_session_goes_on() {
    let mut broker = LocalBroker::new();
    let mut a = accept(&mut broker);
    let mut b = accept(&mut broker);
    feed(&mut broker, &mut a, join(5, 1, "alice"));
    feed(&mut broker, &mut b, join(5, 2, "bob"));
    forwarded(&mut broker, &mut a);
    forwarded(&mut broker, &mut b);

    let action = a.session.on_frame(None);
    assert_eq!(action, Action::Report { error: RelayError::Decode });
    perform(&mut broker, &mut a, action);
    assert_eq!(a.reported, vec![RelayError::Decode]);
    assert!(a.session.is_ready());
    assert!(!a.session.is_closed());
    assert_eq!(a.session.room(), Some(5));
    assert!(broker.is_subscribed(a.id, "5"));
    assert_eq!(broker.waiting(b.id), 0);
    assert!(b.reported.is_empty());
    assert_eq!(RelayError::Decode.reach(), Reach::Dropped);

    // The connection still works afterwards.
    feed(&mut broker, &mut a, post(5, 1, "alice", "after"));
    assert_eq!(forwarded(&mut broker, &mut b).len(), 1);
}

#[test]
fn subscribe_failure_is_surfaced() {
    let mut session = Session::new();
    let action = session.on_frame(Some(join(9, 1, "alice")));
    assert_eq!(action, Action::SwitchRoom { room_id: 9 });
    let mut manager = SubscriptionManager::new();
    manager.request(9);
    let plan = manager.next_switch().unwrap();
    assert_eq!(plan.unsubscribe, None);
    assert_eq!(plan.subscribe, "9");
    let ack = manager.finish_switch(false);
    assert_eq!(ack, Err(RelayError::Broker(BrokerOperation::Subscribe)));
    assert_eq!(manager.state(), Subscription::Unsubscribed);
    assert_eq!(
        session.on_switch_ack(ack),
        Action::Report { error: RelayError::Broker(BrokerOperation::Subscribe) }
    );
    assert_eq!(session.room(), None);
    assert!(session.is_ready());
}

#[test]
fn a_failed_switch_loses_the_old_room_too() {
    let mut broker = LocalBroker::new();
    let mut a = accept(&mut broker);
    feed(&mut broker, &mut a, join(5, 1, "alice"));
    assert_eq!(a.session.room(), Some(5));
    a.session.on_frame(Some(join(6, 1, "alice")));
    a.manager.request(6);
    let plan = a.manager.next_switch().unwrap();
    assert_eq!(plan.unsubscribe.as_deref(), Some("5"));
    let ack = a.manager.finish_switch(false);
    assert_eq!(a.manager.state(), Subscription::Unsubscribed);
    a.session.on_switch_ack(ack);
    assert_eq!(a.session.room(), None);
    assert!(a.session.is_ready());
    // The client can try again.
    feed(&mut broker, &mut a, join(6, 1, "alice"));
    assert_eq!(a.session.room(), Some(6));
}

#[test]
fn switches_are_served_in_the_order_requested() {
    let mut manager = SubscriptionManager::new();
    assert!(manager.next_switch().is_none());
    manager.request(1);
    manager.request(2);
    manager.request(3);
    assert_eq!(manager.waiting(), 3);
    let first = manager.next_switch().unwrap();
    assert_eq!(first.room_id, 1);
    assert!(manager.is_switching());
    // A second switch does not start while the first is under way.
    assert!(manager.next_switch().is_none());
    assert_eq!(manager.waiting(), 2);
    assert_eq!(manager.finish_switch(true), Ok(()));
    let second = manager.next_switch().unwrap();
    assert_eq!(second.room_id, 2);
    assert_eq!(second.unsubscribe.as_deref(), Some("1"));
    assert_eq!(manager.finish_switch(false).is_err(), true);
    let third = manager.next_switch().unwrap();
    assert_eq!(third.room_id, 3);
    assert_eq!(third.unsubscribe, None);
    assert_eq!(manager.finish_switch(true), Ok(()));
    assert_eq!(manager.state(), Subscription::SubscribedTo(3));
    assert!(!manager.is_switching());
    assert_eq!(manager.waiting(), 0);
}

#[test]
fn teardown_gives_up_the_active_channel() {
    let mut manager = SubscriptionManager::new();
    assert_eq!(manager.teardown(), None);
    manager.request(-4);
    manager.next_switch().unwrap();
    manager.finish_switch(true).unwrap();
    manager.request(8);
    assert_eq!(manager.teardown(), Some("-4".to_string()));
    assert_eq!(manager.state(), Subscription::Unsubscribed);
    assert_eq!(manager.waiting(), 0);
    assert!(!manager.is_switching());
}

#[test]
fn a_session_ends_with_its_transport_and_touches_nobody_else() {
    let mut broker = LocalBroker::new();
    let mut a = accept(&mut broker);
    let mut b = accept(&mut broker);
    feed(&mut broker, &mut a, join(5, 1, "alice"));
    feed(&mut broker, &mut b, join(5, 2, "bob"));
    forwarded(&mut broker, &mut a);
    forwarded(&mut broker, &mut b);

    let action = a.session.on_transport_failed();
    assert_eq!(action, Action::Teardown { cause: Some(RelayError::Connection) });
    perform(&mut broker, &mut a, action);
    assert!(a.session.is_closed());
    assert_eq!(a.session.room(), None);
    assert!(!broker.is_connected(a.id));
    assert!(!broker.is_subscribed(a.id, "5"));
    assert_eq!(a.reported, vec![RelayError::Connection]);
    assert_eq!(RelayError::Connection.reach(), Reach::Session);

    // A second end asks for nothing more.
    assert_eq!(a.session.on_transport_closed(), Action::Idle);
    assert_eq!(a.session.on_delivery(Some(post(5, 2, "bob", "x"))), Action::Idle);

    // The other session goes on, and the broker still publishes.
    assert!(broker.is_subscribed(b.id, "5"));
    feed(&mut broker, &mut b, post(5, 2, "bob", "alone"));
    assert_eq!(forwarded(&mut broker, &mut b).len(), 1);
    assert_eq!(broker.waiting(a.id), 0);
}

#[test]
fn a_closed_transport_has_no_cause() {
    let mut session = Session::new();
    assert_eq!(session.on_transport_closed(), Action::Teardown { cause: None });
    for operation in
        [BrokerOperation::Publish, BrokerOperation::Subscribe, BrokerOperation::Unsubscribe]
    {
        let mut session = Session::new();
        assert_eq!(
            session.on_broker_lost(operation),
            Action::Teardown { cause: Some(RelayError::Broker(operation)) }
        );
        assert!(session.is_closed());
        assert_eq!(session.on_broker_lost(operation), Action::Idle);
    }
}

#[test]
fn dispatch_follows_the_table() {
    assert_eq!(
        dispatch(join(5, 1, "alice")),
        Dispatch::Join { room_id: 5, announcement: joined(5, 1, "alice") }
    );
    assert_eq!(
        dispatch(TalkProtocol::LeaveRoom {
            room_id: 5,
            uuid: user(1),
            username: "alice".to_string(),
            unixtime: 3,
        }),
        Dispatch::Publish {
            room_id: 5,
            message: TalkProtocol::UserLeft {
                room_id: 5,
                uuid: user(1),
                username: "alice".to_string(),
                unixtime: 3,
            },
        }
    );
    let message = post(12, 1, "alice", "hi");
    assert_eq!(dispatch(message.clone()), Dispatch::Publish { room_id: 12, message });
    assert_eq!(
        dispatch(TalkProtocol::ChangeName {
            uuid: user(1),
            username: "bob".to_string(),
            old_username: "alice".to_string(),
            unixtime: 4,
        }),
        Dispatch::Publish {
            room_id: 0,
            message: TalkProtocol::UsernameChanged {
                uuid: user(1),
                username: "bob".to_string(),
                old_username: "alice".to_string(),
                unixtime: 4,
            },
        }
    );
    assert_eq!(
        dispatch(TalkProtocol::Fetch { room_id: 3, limit: 50, fetch_before: 1000 }),
        Dispatch::FetchHistory { room_id: 3, limit: 50, before: 1000 }
    );
}

#[test]
fn what_only_the_relay_sends_is_a_violation() {
    let outbound = vec![
        joined(1, 1, "a"),
        TalkProtocol::UserLeft { room_id: 1, uuid: user(1), username: "a".to_string(), unixtime: 1 },
        TalkProtocol::UsernameChanged {
            uuid: user(1),
            username: "b".to_string(),
            old_username: "a".to_string(),
            unixtime: 1,
        },
        TalkProtocol::History { text: vec![post(1, 1, "a", "x")] },
        TalkProtocol::Error { code: 7, message: "e".to_string() },
        TalkProtocol::LocalError { message: "e".to_string() },
        TalkProtocol::LocalInformation { message: "i".to_string() },
    ];
    for message in outbound {
        assert!(!message.is_client_request());
        assert_eq!(dispatch(message.clone()), Dispatch::Violation);
        let mut session = Session::new();
        assert_eq!(
            session.on_frame(Some(message)),
            Action::Report { error: RelayError::ProtocolViolation }
        );
        assert!(session.is_ready());
    }
    assert!(join(1, 1, "a").is_client_request());
    assert_eq!(RelayError::ProtocolViolation.reach(), Reach::Dropped);
}

#[test]
fn leaving_does_not_unsubscribe() {
    let mut broker = LocalBroker::new();
    let mut a = accept(&mut broker);
    feed(&mut broker, &mut a, join(5, 1, "alice"));
    forwarded(&mut broker, &mut a);
    feed(
        &mut broker,
        &mut a,
        TalkProtocol::LeaveRoom {
            room_id: 5,
            uuid: user(1),
            username: "alice".to_string(),
            unixtime: 9,
        },
    );
    assert!(broker.is_subscribed(a.id, "5"));
    assert_eq!(a.manager.state(), Subscription::SubscribedTo(5));
    // The leaver still hears the room, its own departure first.
    assert_eq!(forwarded(&mut broker, &mut a).len(), 1);
}

#[test]
fn history_goes_to_the_requester_alone() {
    let mut broker = LocalBroker::new();
    let mut a = accept(&mut broker);
    let mut b = accept(&mut broker);
    feed(&mut broker, &mut a, join(5, 1, "alice"));
    feed(&mut broker, &mut b, join(5, 2, "bob"));
    forwarded(&mut broker, &mut a);
    forwarded(&mut broker, &mut b);

    let action = a.session.on_frame(Some(TalkProtocol::Fetch {
        room_id: 5,
        limit: 2,
        fetch_before: 1_700_000_500,
    }));
    assert_eq!(action, Action::FetchHistory { room_id: 5, limit: 2, before: 1_700_000_500 });
    assert!(a.session.is_fetching());
    assert!(!a.session.is_ready());
    let entries = vec![post(5, 2, "bob", "old"), post(5, 1, "alice", "older")];
    let reply = a.session.on_history(entries.clone());
    assert_eq!(reply, Action::Send { message: TalkProtocol::History { text: entries } });
    assert!(a.session.is_ready());
    perform(&mut broker, &mut a, reply);
    assert_eq!(a.sent.len(), 1);
    assert_eq!(broker.waiting(a.id), 0);
    assert_eq!(broker.waiting(b.id), 0);
}

#[test]
fn a_failed_publication_is_reported_and_nothing_more() {
    for (published, expected) in [
        (true, Action::Idle),
        (false, Action::Report { error: RelayError::Broker(BrokerOperation::Publish) }),
    ] {
        let mut session = Session::new();
        let message = post(5, 1, "alice", "hi");
        assert_eq!(
            session.on_frame(Some(message.clone())),
            Action::Publish { room_id: 5, message }
        );
        assert!(session.is_publishing());
        assert!(!session.is_ready());
        assert_eq!(session.on_publish_result(published), expected);
        assert!(session.is_ready());
        assert!(!session.is_publishing());
    }
    assert_eq!(RelayError::Broker(BrokerOperation::Publish).reach(), Reach::Dropped);
    assert_eq!(RelayError::Config.reach(), Reach::Process);
}

#[test]
fn two_posts_are_published_one_after_the_other() {
    let mut broker = LocalBroker::new();
    let mut a = accept(&mut broker);
    let mut b = accept(&mut broker);
    feed(&mut broker, &mut a, join(5, 1, "alice"));
    feed(&mut broker, &mut b, join(5, 2, "bob"));
    forwarded(&mut broker, &mut a);
    forwarded(&mut broker, &mut b);

    let first = post(5, 1, "alice", "one");
    let second = post(5, 1, "alice", "two");
    let action = a.session.on_frame(Some(first.clone()));
    // The second frame waits: the session takes none while the first is
    // being published.
    assert!(!a.session.is_ready());
    assert_eq!(broker.waiting(b.id), 0);
    perform(&mut broker, &mut a, action);
    assert!(a.session.is_ready());
    assert_eq!(broker.waiting(b.id), 1);
    feed(&mut broker, &mut a, second.clone());
    assert_eq!(forwarded(&mut broker, &mut b), vec![encode(&first), encode(&second)]);
}

#[test]
fn an_undecodable_delivery_is_reported() {
    let session = Session::new();
    assert_eq!(session.on_delivery(None), Action::Report { error: RelayError::Decode });
}

#[test]
fn a_message_clone_is_equal_to_the_message() {
    let history = TalkProtocol::History {
        text: vec![
            post(1, 1, "a", "x"),
            TalkProtocol::History { text: vec![joined(2, 2, "b")] },
            TalkProtocol::Error { code: 404, message: "gone".to_string() },
        ],
    };
    assert_eq!(history.clone(), history);
    let message = TalkMessage {
        uuid: user(5),
        username: "n".to_string(),
        text: "t".to_string(),
        room_id: -1,
        unixtime: 2,
    };
    assert_eq!(message.clone(), message);
}
