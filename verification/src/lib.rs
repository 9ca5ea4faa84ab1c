//! A chat relay and its clients.
//!
//! Clients connect to the relay, join numbered rooms, and exchange messages
//! with everyone in the same room. The relay keeps no room: a room is a
//! channel of a publish/subscribe broker, and being in a room is being
//! subscribed to its channel.
//!
//! This crate holds the decisions of the relay and of its clients, with
//! their contracts. It reads no socket and talks to no broker. Its state
//! machines take what happened as arguments and return what is to be done.
//!
//! The relay:
//! * [`protocol`]: the messages.
//! * [`channel`]: the broker channel of a room.
//! * [`dispatch`]: what an inbound message calls for.
//! * [`subscription`]: the one subscription of a connection, and its switches.
//! * [`session`]: the life of a connection.
//! * [`delivery`]: what the broker pushes.
//! * [`broker`]: a broker for sessions that share a process.
//! * [`guarantees`]: what holds across these.
//! * [`error`]: what can go wrong, and how far it reaches.
//! * [`config`]: startup settings.
//!
//! The clients:
//! * [`client`]: the state of a client and what events do to it.
//! * [`command`]: the command line.
//! * [`render`]: how messages are shown.
//! * [`terminal`]: line editing and scrolling in a terminal.
//! * [`identity`]: the identity of a client.
//! * [`text`]: trimming, prefixes and numbers.

pub mod broker;
pub mod channel;
pub mod client;
pub mod command;
pub mod config;
pub mod delivery;
pub mod dispatch;
pub mod error;
pub mod guarantees;
pub mod identity;
pub mod protocol;
pub mod render;
pub mod session;
pub mod subscription;
pub mod terminal;
pub mod text;
