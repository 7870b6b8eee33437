//! Server lifecycle events and the stages of a network frame.

use vstd::prelude::*;
use crate::channels::ChannelId;

verus! {

/// A server on a channel started or stopped.
pub enum ServerEvent {
    ServerStarted(ChannelId),
    ServerStopped(ChannelId),
}

/// The stages in which network work happens during a frame: receiving and
/// decoding before the update, encoding and sending after it.
#[derive(Debug, Hash, PartialEq, Eq, Clone, Copy, Structural)]
pub enum NetworkSet {
    Receive,
    Decoding,
    Encoding,
    Send,
}

} // verus!
