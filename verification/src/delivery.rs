//! Deliveries pushed by the broker.
//!
//! The broker pushes a kind and a list of values. A publication on a
//! subscribed channel is pushed as the channel and then the binary payload.

use vstd::prelude::*;

verus! {

/// The kind of a push, as the broker names it.
#[derive(Clone, Copy, Debug, PartialEq, Eq, Structural)]
pub enum PushKind {
    Disconnection,
    Invalidate,
    Message,
    PMessage,
    SMessage,
    Unsubscribe,
    PUnsubscribe,
    SUnsubscribe,
    Subscribe,
    PSubscribe,
    SSubscribe,
    Other,
}

/// One value of a push, as far as the relay reads it.
#[derive(Debug, PartialEq)]
pub enum Value {
    Nil,
    Int(i64),
    BulkString(Vec<u8>),
    SimpleString(String),
    Okay,
    Boolean(bool),
    /// Any value of another shape.
    Other,
}

/// The binary payload that a publication carries: the bytes of its second
/// value, after the channel, where it has one and that value is a bulk
/// string.
pub open spec fn payload_of(data: Seq<Value>) -> Option<Seq<u8>> {
    if data.len() >= 2 {
        match data[1] {
            Value::BulkString(bytes) => Some(bytes@),
            _ => None,
        }
    } else {
        None
    }
}

/// Takes the binary payload out of the values of a pushed publication.
/// Values that hold none give `None`, however many or few they are.
pub fn extract_binary_payload_from_message(data: Vec<Value>) -> (payload: Option<Vec<u8>>)
    ensures
        match payload {
            Some(bytes) => Some(bytes@),
            None => None,
        } == payload_of(data@),
{
    if data.len() >= 2 {
        if let Value::BulkString(binary_data) = &data[1] {
            return Some(binary_data.clone());
        }
    }
    None
}

/// What the delivery listener does with a push.
#[derive(Debug, PartialEq)]
pub enum Pushed {
    /// A publication: decode the payload and forward it to the connection.
    Payload(Vec<u8>),
    /// A publication without a binary payload: nothing to forward.
    Empty,
    /// Not a publication: report it.
    Unexpected,
}

impl PushKind {
    /// Whether a push of this kind is a publication on a channel that the
    /// connection subscribed to by name, plain or sharded.
    pub open spec fn is_publication(self) -> bool {
        self == PushKind::Message || self == PushKind::SMessage
    }
}

/// The listener's decision for a push of `kind` with `data`: the payload of
/// a publication, if it has one, and nothing for any other push.
pub open spec fn pushed_of(kind: PushKind, data: Seq<Value>) -> Option<Option<Seq<u8>>> {
    if kind.is_publication() {
        Some(payload_of(data))
    } else {
        None
    }
}

/// Decides what to do with a push: only a publication is a delivery, and
/// only its payload is forwarded.
pub fn classify_push(kind: PushKind, data: Vec<Value>) -> (pushed: Pushed)
    ensures
        match pushed {
            Pushed::Payload(bytes) => Some(Some(bytes@)),
            Pushed::Empty => Some(None),
            Pushed::Unexpected => None,
        } == pushed_of(kind, data@),
{
    match kind {
        PushKind::Message | PushKind::SMessage => match extract_binary_payload_from_message(data) {
            Some(bytes) => Pushed::Payload(bytes),
            None => Pushed::Empty,
        },
        _ => Pushed::Unexpected,
    }
}

} // verus!
