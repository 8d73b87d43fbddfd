//! The connection-acceptance junction of a message-oriented TCP transport.
//!
//! A listener accepts inbound connections. For each one it has a worker pair
//! built, registers the pair with the router, and guards the pair's two
//! addresses with mailboxes whose access control admits only the router and
//! the pair's own receiving half.
//!
//! Everything here is decision logic over plain values. Sockets, the router
//! and the actor runtime are driven from outside: the caller performs each
//! [`listener::Action`] and reports what came of it as an [`listener::Event`].

pub mod access_control;
pub mod address;
pub mod endpoint;
pub mod error;
pub mod history;
pub mod listener;
pub mod mailbox;
pub mod worker_pair;
