//! Channels: named routes between the application's messages and the
//! network nodes that carry them.

use vstd::prelude::*;
use crate::payload::{bytes_view, bytes_copy_from_slice};
use crate::network_node::{NetworkNode, NetworkRawPacket, channel_send};

verus! {

/// Whether two texts hold the same characters.
fn str_eq(a: &str, b: &str) -> (r: bool)
    ensures
        r == (a@ == b@),
{
    let n = a.unicode_len();
    if n != b.unicode_len() {
        return false;
    }
    let mut i: usize = 0;
    while i < n
        invariant
            n == a@.len(),
            n == b@.len(),
            i <= n,
            forall|k: int| 0 <= k < i ==> a@[k] == b@[k],
        decreases n - i,
    {
        if a.get_char(i) != b.get_char(i) {
            return false;
        }
        i += 1;
    }
    assert(a@ =~= b@);
    true
}

/// Channel marker: the name of a channel.
#[derive(Clone, Copy, Debug, Hash)]
pub struct ChannelId(pub &'static str);

impl ChannelId {
    /// The channel's name.
    pub open spec fn name(self) -> Seq<char> {
        self.0@
    }

    /// The text by which the channel is shown: `Channel(<name>)`.
    pub fn to_display_string(&self) -> (r: String)
        ensures
            r@ == "Channel("@ + self.name() + ")"@,
    {
        let mut r = String::new();
        r.append("Channel(");
        r.append(self.0);
        r.append(")");
        r
    }
}

impl PartialEq for ChannelId {
    fn eq(&self, other: &Self) -> (r: bool) {
        str_eq(self.0, other.0)
    }
}

impl vstd::std_specs::cmp::PartialEqSpecImpl for ChannelId {
    open spec fn obeys_eq_spec() -> bool {
        true
    }

    open spec fn eq_spec(&self, other: &Self) -> bool {
        self.0@ == other.0@
    }
}

impl Eq for ChannelId {}

impl Default for ChannelId {
    fn default() -> (r: Self)
        ensures
            r.name() == Seq::<char>::empty(),
    {
        proof {
            reveal_strlit("");
        }
        ChannelId("")
    }
}

/// The characters of an optional text.
pub open spec fn text_view(text: Option<String>) -> Option<Seq<char>> {
    match text {
        Some(t) => Some(t@),
        None => None,
    }
}

/// Raw bytes (or a text) to be sent on every node of a channel.
pub struct ChannelPacket {
    pub channel_id: ChannelId,
    pub bytes: bytes::Bytes,
    pub text: Option<String>,
}

impl ChannelPacket {
    pub fn new(channel_id: ChannelId, bytes: &[u8]) -> (r: Self)
        ensures
            r.channel_id == channel_id,
            bytes_view(r.bytes) == bytes@,
            r.text is None,
    {
        ChannelPacket { channel_id, bytes: bytes_copy_from_slice(bytes), text: None }
    }

    /// The raw packet that a node of the channel sends for this packet: to
    /// the node's own peer, with the same bytes and text.
    pub fn to_raw_packet(&self) -> (r: NetworkRawPacket)
        ensures
            r.addr is None,
            bytes_view(r.bytes) == bytes_view(self.bytes),
            text_view(r.text) == text_view(self.text),
    {
        let text = match &self.text {
            Some(t) => Some(t.clone()),
            None => None,
        };
        NetworkRawPacket { addr: None, bytes: self.bytes.clone(), text }
    }
}

/// A message of the application to be sent on a channel.
#[derive(Debug)]
pub struct SendChannelMessage<M> {
    pub channel_id: ChannelId,
    pub message: M,
}

impl<M> SendChannelMessage<M> {
    pub fn new(channel_id: ChannelId, message: M) -> (r: Self)
        ensures
            r.channel_id == channel_id,
            r.message == message,
    {
        SendChannelMessage { channel_id, message }
    }
}

/// A message of the application received on a channel.
#[derive(Debug)]
pub struct ReceiveChannelMessage<M> {
    pub channel_id: ChannelId,
    pub message: M,
}

impl<M> ReceiveChannelMessage<M> {
    pub fn new(channel_id: ChannelId, message: M) -> (r: Self)
        ensures
            r.channel_id == channel_id,
            r.message == message,
    {
        ReceiveChannelMessage { channel_id, message }
    }
}

/// A message of the application to be sent on a channel (older name).
#[derive(Debug)]
pub struct ChannelSendMessage<M> {
    pub channel_id: ChannelId,
    pub message: M,
}

impl<M> ChannelSendMessage<M> {
    pub fn new(channel_id: ChannelId, message: M) -> (r: Self)
        ensures
            r.channel_id == channel_id,
            r.message == message,
    {
        ChannelSendMessage { channel_id, message }
    }
}

/// A message of the application received on a channel (older name).
#[derive(Debug)]
pub struct ChannelReceivedMessage<M> {
    pub channel_id: ChannelId,
    pub message: M,
}

impl<M> ChannelReceivedMessage<M> {
    pub fn new(channel_id: ChannelId, message: M) -> (r: Self)
        ensures
            r.channel_id == channel_id,
            r.message == message,
    {
        ChannelReceivedMessage { channel_id, message }
    }
}

/// Sends `packet` on every node whose channel is the packet's channel, and
/// returns the positions of those nodes in `nodes`, in increasing order.
/// A node whose queue has closed drops the packet, as in the plugin. The
/// contract states which nodes are chosen; the hand-over to each chosen
/// node's queue is a call into the channel library, of which nothing is
/// stated.
pub fn send_channel_packet(packet: &ChannelPacket, nodes: &Vec<(ChannelId, &NetworkNode)>) -> (sent_to: Vec<usize>)
    ensures
        forall|k: int| 0 <= k < sent_to.len() ==>
            #[trigger] sent_to[k] < nodes.len() && nodes[sent_to[k] as int].0.name() == packet.channel_id.name(),
        forall|j: int, k: int| 0 <= j < k < sent_to.len() ==> sent_to[j] < sent_to[k],
        forall|i: int| 0 <= i < nodes.len() && #[trigger] nodes[i].0.name() == packet.channel_id.name()
            ==> sent_to@.contains(i as usize),
{
    let mut sent_to: Vec<usize> = Vec::new();
    let mut i: usize = 0;
    while i < nodes.len()
        invariant
            0 <= i <= nodes.len(),
            forall|k: int| 0 <= k < sent_to.len() ==>
                #[trigger] sent_to[k] < i && nodes[sent_to[k] as int].0.name() == packet.channel_id.name(),
            forall|j: int, k: int| 0 <= j < k < sent_to.len() ==> sent_to[j] < sent_to[k],
            forall|i2: int| 0 <= i2 < i && #[trigger] nodes[i2].0.name() == packet.channel_id.name()
                ==> sent_to@.contains(i2 as usize),
        decreases nodes.len() - i,
    {
        let (channel_id, node) = &nodes[i];
        if *channel_id == packet.channel_id {
            let _ = channel_send(&node.send_message_channel.sender, packet.to_raw_packet());
            let ghost before = sent_to@;
            sent_to.push(i);
            assert forall|i2: int| 0 <= i2 <= i && #[trigger] nodes[i2].0.name() == packet.channel_id.name()
                implies sent_to@.contains(i2 as usize) by {
                if i2 < i {
                    let k = choose|k: int| 0 <= k < before.len() && before[k] == i2 as usize;
                    assert(sent_to@[k] == i2 as usize);
                } else {
                    assert(sent_to@[sent_to.len() - 1] == i2 as usize);
                }
            }
        }
        i += 1;
    }
    sent_to
}

} // verus!
