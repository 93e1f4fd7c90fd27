//! A serial line served over TCP, one client at a time.
//!
//! The crate holds the decisions of such a server and none of its I/O:
//! how a failed `accept` is recovered from ([`recovery`]), the loop that
//! takes one client, opens the device for it and bridges the two
//! ([`acceptor`]), and the duplex copy that a session consists of
//! ([`bridge`]). A driver performs the actions that these machines ask for
//! and reports what happened.

pub mod acceptor;
pub mod bridge;
pub mod history;
pub mod recovery;
pub mod transfer;
