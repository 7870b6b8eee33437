//! Network nodes: the raw packets they carry, the events they raise and the
//! running state that those events drive.

use vstd::prelude::*;
use crate::error::NetworkError;
use crate::payload::{bytes_view, bytes_copy_from_slice, bytes_len, bytes_new};
use crate::addr_text::peer_text;
use crate::shared::{decimal, decimal_string};

verus! {

/// A socket address, held as plain values: the IP address as one integer
/// (most significant byte first), the port, and for IPv6 the flow label and
/// scope id.
#[derive(Clone, Copy, Debug, PartialEq, Eq, Hash, Structural)]
pub enum PeerAddr {
    V4 { ipv4: u32, port: u16 },
    V6 { ipv6: u128, port: u16, flowinfo: u32, scope_id: u32 },
}

/// `kanal::Sender`, the sending half of a channel.
#[verifier::external_type_specification]
#[verifier::external_body]
#[verifier::reject_recursive_types(T)]
pub struct ExSender<T>(kanal::Sender<T>);

/// `kanal::Receiver`, the receiving half of a channel.
#[verifier::external_type_specification]
#[verifier::external_body]
#[verifier::reject_recursive_types(T)]
pub struct ExReceiver<T>(kanal::Receiver<T>);

/// `kanal::SendError`, why a send was refused.
#[verifier::external_type_specification]
#[verifier::external_body]
pub struct ExSendError(kanal::SendError);

/// `<kanal::Sender<T> as Clone>::clone` makes another sending handle on the
/// same channel. The handle is opaque; nothing is stated of it.
pub assume_specification<T>[ <kanal::Sender<T> as Clone>::clone ](s: &kanal::Sender<T>) -> kanal::Sender<T>;

/// `<kanal::Receiver<T> as Clone>::clone` makes another receiving handle on
/// the same channel. The handle is opaque; nothing is stated of it.
pub assume_specification<T>[ <kanal::Receiver<T> as Clone>::clone ](r: &kanal::Receiver<T>) -> kanal::Receiver<T>;

/// Calls `kanal::unbounded`, which creates a fresh unbounded channel. The
/// contract states nothing: the halves are opaque and shared with the tasks
/// that receive clones of them.
#[verifier::external_body]
fn channel_unbounded<T>() -> (r: (kanal::Sender<T>, kanal::Receiver<T>)) {
    kanal::unbounded()
}

/// Calls `kanal::Sender::try_send`. Whether the value is queued depends on
/// whether the receiving side is still open, which other threads decide; the
/// contract states nothing of the outcome.
#[verifier::external_body]
fn channel_try_send<T>(sender: &kanal::Sender<T>, value: T) -> (r: Result<bool, kanal::SendError>) {
    sender.try_send(value)
}

/// Calls `kanal::Sender::send`. On an unbounded channel this queues the value
/// unless the channel is closed, which other threads decide; the contract
/// states nothing of the outcome.
#[verifier::external_body]
pub(crate) fn channel_send<T>(sender: &kanal::Sender<T>, value: T) -> (r: Result<(), kanal::SendError>) {
    sender.send(value)
}

/// Raw packets that are sent over the network.
#[derive(Clone)]
pub struct NetworkRawPacket {
    pub addr: Option<PeerAddr>,
    pub bytes: bytes::Bytes,
    pub text: Option<String>,
}

impl NetworkRawPacket {
    /// A binary packet for `addr` (for the node's own peer when `None`)
    /// holding a copy of `bytes`.
    pub fn binary(bytes: &[u8], addr: Option<PeerAddr>) -> (r: NetworkRawPacket)
        ensures
            r.addr == addr,
            bytes_view(r.bytes) == bytes@,
            r.text is None,
    {
        NetworkRawPacket { addr, bytes: bytes_copy_from_slice(bytes), text: None }
    }

    /// The debug text of a packet: its address and the number of its bytes,
    /// as in `NetworkRawPacket { addr: Some(127.0.0.1:4000), len: 2 }`.
    pub open spec fn debug_view(self) -> Seq<char> {
        let addr = match self.addr {
            Some(a) => "Some("@ + peer_text(a) + ")"@,
            None => "None"@,
        };
        "NetworkRawPacket { addr: "@ + addr + ", len: "@ + decimal(bytes_view(self.bytes).len()) + " }"@
    }

    /// The debug text of the packet: its address and the number of its
    /// bytes; neither the bytes nor the text are shown.
    pub fn debug_text(&self) -> (r: String)
        ensures
            r@ == self.debug_view(),
    {
        let mut r = String::new();
        r.append("NetworkRawPacket { addr: ");
        match &self.addr {
            Some(a) => {
                r.append("Some(");
                r.append(a.to_display_string().as_str());
                r.append(")");
            },
            None => {
                r.append("None");
            },
        }
        r.append(", len: ");
        let len = bytes_len(&self.bytes);
        r.append(decimal_string(len as u64).as_str());
        r.append(" }");
        r
    }

    /// A text packet for `addr`; its byte payload is empty.
    pub fn text(text: String, addr: Option<PeerAddr>) -> (r: NetworkRawPacket)
        ensures
            r.addr == addr,
            bytes_view(r.bytes) == Seq::<u8>::empty(),
            r.text == Some(text),
    {
        NetworkRawPacket { addr, bytes: bytes_new(), text: Some(text) }
    }
}

/// Raw events that come from the background tasks of a network node.
#[derive(Debug)]
pub enum NetworkEvent {
    Listen,
    Connected,
    Disconnected,
    Error(NetworkError),
}

impl NetworkEvent {
    /// The event reports that the node is up: listening or connected.
    pub open spec fn is_up(&self) -> bool {
        self is Listen || self is Connected
    }

    /// The event ends a connection: a disconnect, or a failure to connect.
    pub open spec fn ends_connection(&self) -> bool {
        ||| self is Disconnected
        ||| (self matches NetworkEvent::Error(e) && e.is_connection_error())
    }

    /// Whether the event reports that the node is up.
    pub fn reports_up(&self) -> (r: bool)
        ensures
            r == self.is_up(),
    {
        match self {
            NetworkEvent::Listen | NetworkEvent::Connected => true,
            _ => false,
        }
    }

    /// Whether the event ends a connection.
    pub fn reports_connection_end(&self) -> (r: bool)
        ensures
            r == self.ends_connection(),
            r == (self is Disconnected || self matches NetworkEvent::Error(NetworkError::Connection(_))),
    {
        match self {
            NetworkEvent::Disconnected => true,
            NetworkEvent::Error(e) => e.is_connection(),
            _ => false,
        }
    }
}

/// Whether a node is running after it saw `events`, starting from `running`:
/// the last event decides, and no event leaves it as it was.
pub open spec fn running_after(running: bool, events: Seq<NetworkEvent>) -> bool
    decreases events.len(),
{
    if events.len() == 0 {
        running
    } else {
        running_after(events[0].is_up(), events.drop_first())
    }
}

/// A sending and a receiving half of one unbounded channel.
#[derive(Clone, Debug)]
#[verifier::reject_recursive_types(T)]
pub struct AsyncChannel<T> {
    pub sender: kanal::Sender<T>,
    pub receiver: kanal::Receiver<T>,
}

impl<T> AsyncChannel<T> {
    /// The two halves of a fresh unbounded channel. Both halves point to one
    /// newly allocated channel, shared with whoever later clones them; what
    /// is queued in it is not a function of these values, so the contract
    /// states nothing of them.
    pub fn new() -> (r: Self) {
        let (sender, receiver) = channel_unbounded();
        AsyncChannel { sender, receiver }
    }
}

/// A network node: the channels to its background tasks and whether it runs.
pub struct NetworkNode {
    /// Channel for receiving messages
    pub recv_message_channel: AsyncChannel<NetworkRawPacket>,
    /// Channel for sending messages for peer
    pub send_message_channel: AsyncChannel<NetworkRawPacket>,
    /// Channel for events
    pub event_channel: AsyncChannel<NetworkEvent>,
    /// Channel for shutdown
    pub shutdown_channel: AsyncChannel<()>,
    /// Whether the node is running or not
    pub running: bool,
}

impl Default for NetworkNode {
    fn default() -> (r: Self)
        ensures
            !r.running,
    {
        NetworkNode {
            recv_message_channel: AsyncChannel::new(),
            send_message_channel: AsyncChannel::new(),
            event_channel: AsyncChannel::new(),
            shutdown_channel: AsyncChannel::new(),
            running: false,
        }
    }
}

impl NetworkNode {
    /// The node keeps its channels: the same queues, as before.
    pub open spec fn same_channels(self, other: NetworkNode) -> bool {
        &&& self.recv_message_channel == other.recv_message_channel
        &&& self.send_message_channel == other.send_message_channel
        &&& self.event_channel == other.event_channel
        &&& self.shutdown_channel == other.shutdown_channel
    }

    pub fn start(&mut self)
        ensures
            final(self).running,
            final(self).same_channels(*old(self)),
    {
        self.running = true;
    }

    pub fn stop(&mut self)
        ensures
            !final(self).running,
            final(self).same_channels(*old(self)),
    {
        self.running = false;
    }

    /// Queues a text message for `remote_addr`. Whether the background task
    /// still listens is not known here; a closed queue drops the message, as
    /// it does in the plugin.
    pub fn send_text_to(&self, text: String, remote_addr: PeerAddr) {
        let _ = channel_try_send(&self.send_message_channel.sender, NetworkRawPacket::text(text, Some(remote_addr)));
    }

    /// Queues a copy of `bytes` for `addr`.
    pub fn send_bytes_to(&self, bytes: &[u8], addr: PeerAddr) {
        let _ = channel_try_send(&self.send_message_channel.sender, NetworkRawPacket::binary(bytes, Some(addr)));
    }

    /// Queues a copy of `bytes` for the node's own peer.
    pub fn send_bytes(&self, bytes: &[u8]) {
        let _ = channel_try_send(&self.send_message_channel.sender, NetworkRawPacket::binary(bytes, None));
    }

    /// Brings the running flag in line with one event from the background
    /// tasks: listening or connected starts the node, a disconnect or an
    /// error stops it.
    pub fn apply_event(&mut self, event: &NetworkEvent)
        ensures
            final(self).running == event.is_up(),
            final(self).same_channels(*old(self)),
    {
        if event.reports_up() {
            self.start();
        } else {
            self.stop();
        }
    }

    /// Applies the events in the order in which they arrived.
    pub fn apply_events(&mut self, events: &Vec<NetworkEvent>)
        ensures
            final(self).running == running_after(old(self).running, events@),
            final(self).same_channels(*old(self)),
    {
        let mut i: usize = 0;
        assert(events@.skip(0) =~= events@);
        while i < events.len()
            invariant
                0 <= i <= events.len(),
                running_after(old(self).running, events@) == running_after(self.running, events@.skip(i as int)),
                self.same_channels(*old(self)),
            decreases events.len() - i,
        {
            self.apply_event(&events[i]);
            assert(events@.skip(i as int).drop_first() =~= events@.skip(i + 1));
            i += 1;
        }
        assert(events@.skip(i as int) =~= Seq::<NetworkEvent>::empty());
    }
}

/// Settings shared by the nodes of a network.
#[derive(Clone, Copy)]
pub struct NetworkSetting {
    pub max_packet_size: usize,
    pub auto_start: bool,
}

impl Default for NetworkSetting {
    fn default() -> (r: Self)
        ensures
            r.max_packet_size == 65535,
            r.auto_start,
    {
        NetworkSetting { max_packet_size: 65535, auto_start: true }
    }
}

/// Marks a node that is to be stopped.
pub struct StopMarker;

} // verus!

verus! {

/// A node's running flag after a batch of events is decided by the last
/// event alone: running exactly when that event is `Listen` or `Connected`;
/// an empty batch leaves the flag as it was.
pub proof fn lemma_running_follows_last_event(running: bool, events: Seq<NetworkEvent>)
    ensures
        events.len() == 0 ==> running_after(running, events) == running,
        events.len() > 0 ==> running_after(running, events) == events.last().is_up(),
    decreases events.len(),
{
    if events.len() > 0 {
        lemma_running_follows_last_event(events[0].is_up(), events.drop_first());
        if events.len() > 1 {
            assert(events.drop_first().last() == events.last());
        }
    }
}

/// Applying events in two batches leaves a node as applying them in one
/// batch does.
pub proof fn lemma_running_after_batches(running: bool, first: Seq<NetworkEvent>, second: Seq<NetworkEvent>)
    ensures
        running_after(running_after(running, first), second) == running_after(running, first + second),
    decreases first.len(),
{
    if first.len() > 0 {
        lemma_running_after_batches(first[0].is_up(), first.drop_first(), second);
        assert((first + second).drop_first() =~= first.drop_first() + second);
    } else {
        assert(first + second =~= second);
    }
}

/// An event ends a connection exactly when it is a disconnect or a failure
/// to connect; listening, connecting, and every other error (a message that
/// does not decode or encode, an I/O or listen error, a common error) do not.
pub proof fn lemma_connection_ends_only_on_disconnect_or_connect_failure(event: NetworkEvent)
    ensures
        event.ends_connection() <==> (event is Disconnected
            || event matches NetworkEvent::Error(NetworkError::Connection(_))),
        event.is_up() ==> !event.ends_connection(),
        (event matches NetworkEvent::Error(e) && !(e is Connection)) ==> !event.ends_connection(),
{
}

} // verus!
