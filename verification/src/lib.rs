//! Session-management core of a BGP speaker: the per-peer finite state
//! machine of RFC 4271 section 8 that governs how a session is established,
//! maintained, and torn down. The core is event-driven: producers (operator
//! commands, timer expiries, the transport layer) append [`event::Event`]s to
//! a peer's queue, and each call of [`peer::Peer::next`] consumes exactly one
//! event, advancing the state per the transition table in [`table`] and
//! reporting the side effects the caller must carry out. Wire encoding,
//! route computation and the transport sockets themselves are outside this
//! core: it only decides, never performs, the outside work.

pub mod config;
pub mod event;
pub mod event_queue;
pub mod peer;
pub mod state;
pub mod table;
pub mod text;
pub mod timer;
