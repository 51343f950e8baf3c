//! The Trivial File Transfer Protocol (RFC 1350): the packet codec and the
//! lock-step transfer state machines, with their behaviour stated in
//! contracts and proved.
//!
//! The crate does no I/O of its own. A caller owns the socket and the file,
//! hands the library what arrived, and sends what the library hands back.

use vstd::prelude::*;

pub mod bytes;
pub mod client;
pub mod connection;
pub mod failure;
pub mod packet;
pub mod server;

pub use client::Client;
pub use failure::{ErrorKind, Failure, Rejection};
pub use server::{Handler, Server};

verus! {

/// Configures if and how we should retransmit packets if we don't get a
/// response.
#[derive(Debug, Copy, Clone, Ord, PartialOrd, Eq, PartialEq)]
pub enum RetransmissionConfig {
    /// Do not retransmit packets. Just error out.
    NoRetransmission,
    /// Retransmit packets indefinitely.
    ForeverAfter {
        /// How long should we wait before retransmitting?
        timeout: std::time::Duration,
    },
    /// Retransmit packets a limited amount of times.
    NTimesAfter {
        /// How long should we wait before retransmitting?
        timeout: std::time::Duration,
        /// How many times should we retransmit? With 0 the first passed
        /// deadline ends the transfer, as with `NoRetransmission`.
        limit: usize,
    },
}

impl Default for RetransmissionConfig {
    fn default() -> (config: Self)
        ensures
            config == RetransmissionConfig::NoRetransmission,
    {
        Self::NoRetransmission
    }
}

impl RetransmissionConfig {
    /// The largest number of retransmissions that the configuration
    /// allows; `None` where it allows any number.
    pub open spec fn most_retransmissions(self) -> Option<usize> {
        match self {
            RetransmissionConfig::NoRetransmission => Some(0usize),
            RetransmissionConfig::ForeverAfter { .. } => None,
            RetransmissionConfig::NTimesAfter { limit, .. } => Some(limit),
        }
    }

    /// How long to wait for a datagram; `None` to wait without end.
    pub fn timeout(&self) -> (timeout: Option<&std::time::Duration>)
        ensures
            match *self {
                RetransmissionConfig::NoRetransmission => timeout is None,
                RetransmissionConfig::ForeverAfter { timeout: wait } => timeout == Some(&wait),
                RetransmissionConfig::NTimesAfter { timeout: wait, .. } => timeout == Some(
                    &wait,
                ),
            },
    {
        match self {
            Self::NoRetransmission => None,
            Self::ForeverAfter { timeout } => Some(timeout),
            Self::NTimesAfter { timeout, .. } => Some(timeout),
        }
    }

    /// The largest number of retransmissions that the configuration
    /// allows; `None` where it allows any number.
    pub fn max_retransmissions(&self) -> (limit: Option<usize>)
        ensures
            limit == self.most_retransmissions(),
    {
        match self {
            Self::NoRetransmission => Some(0),
            Self::ForeverAfter { .. } => None,
            Self::NTimesAfter { limit, .. } => Some(*limit),
        }
    }
}

} // verus!
