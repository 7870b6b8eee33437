//! Transformers: which channels carry which message types, and what becomes
//! of encoded and decoded messages.

use vstd::prelude::*;
use crate::channels::{ChannelId, ReceiveChannelMessage};
use crate::error::NetworkError;
use crate::network_node::{NetworkEvent, NetworkNode, NetworkRawPacket, PeerAddr, channel_send};
use crate::payload::{bytes_view, bytes_from_vec};

verus! {

/// `std::any::TypeId`, carried through the library as an opaque value.
#[verifier::external_type_specification]
#[verifier::external_body]
pub struct ExTypeId(std::any::TypeId);

/// Calls `<TypeId as PartialEq>::eq`; the contract claims that two type ids
/// compare equal exactly when they are the same value.
#[verifier::external_body]
fn type_id_eq(a: &std::any::TypeId, b: &std::any::TypeId) -> (r: bool)
    ensures
        r == (*a == *b),
{
    *a == *b
}

/// The channels registered for one message type under one transformer.
struct RegistryEntry {
    message: std::any::TypeId,
    transformer: std::any::TypeId,
    channels: Vec<ChannelId>,
}

/// For each pair of a message type and a transformer type, the channels on
/// which that transformer handles that message type, in registration order.
pub struct ChannelRegistry {
    entries: Vec<RegistryEntry>,
}

impl ChannelRegistry {
    spec fn holds_key(self, i: int, message: std::any::TypeId, transformer: std::any::TypeId) -> bool {
        0 <= i < self.entries.len() && self.entries[i].message == message
            && self.entries[i].transformer == transformer
    }

    /// No pair of types is registered twice.
    #[verifier::type_invariant]
    spec fn wf(self) -> bool {
        forall|i: int, j: int|
            0 <= i < self.entries.len() && 0 <= j < self.entries.len() && i != j
                ==> !(#[trigger] self.entries[i].message == #[trigger] self.entries[j].message
                    && self.entries[i].transformer == self.entries[j].transformer)
    }

    /// The channels registered for a pair of types, if the pair is registered.
    pub closed spec fn channels_for(self, message: std::any::TypeId, transformer: std::any::TypeId) -> Option<Seq<ChannelId>> {
        if exists|i: int| self.holds_key(i, message, transformer) {
            let i = choose|i: int| self.holds_key(i, message, transformer);
            Some(self.entries[i].channels@)
        } else {
            None
        }
    }

    proof fn lemma_key_unique(self, i: int, message: std::any::TypeId, transformer: std::any::TypeId)
        requires
            self.wf(),
            self.holds_key(i, message, transformer),
        ensures
            forall|j: int| self.holds_key(j, message, transformer) ==> j == i,
            self.channels_for(message, transformer) == Some(self.entries[i].channels@),
    {
        assert forall|j: int| self.holds_key(j, message, transformer) implies j == i by {
            if j != i {
                assert(self.entries[i].message == self.entries[j].message);
            }
        }
    }

    /// A registry that only added channels for one pair of types, or added
    /// entries for that pair alone, keeps the channels of every other pair.
    proof fn lemma_other_pairs_kept(self, post: ChannelRegistry, message: std::any::TypeId, transformer: std::any::TypeId)
        requires
            self.wf(),
            post.wf(),
            self.entries.len() <= post.entries.len(),
            forall|j: int| 0 <= j < self.entries.len() ==> {
                &&& (#[trigger] post.entries[j]).message == self.entries[j].message
                &&& post.entries[j].transformer == self.entries[j].transformer
                &&& !(self.entries[j].message == message && self.entries[j].transformer == transformer)
                    ==> post.entries[j].channels@ == self.entries[j].channels@
            },
            forall|j: int| self.entries.len() <= j < post.entries.len() ==>
                (#[trigger] post.entries[j]).message == message && post.entries[j].transformer == transformer,
        ensures
            forall|m: std::any::TypeId, t: std::any::TypeId| !(m == message && t == transformer)
                ==> #[trigger] post.channels_for(m, t) == self.channels_for(m, t),
    {
        assert forall|m: std::any::TypeId, t: std::any::TypeId| !(m == message && t == transformer)
            implies #[trigger] post.channels_for(m, t) == self.channels_for(m, t) by {
            if exists|j: int| self.holds_key(j, m, t) {
                let j = choose|j: int| self.holds_key(j, m, t);
                assert(post.holds_key(j, m, t));
                post.lemma_key_unique(j, m, t);
                self.lemma_key_unique(j, m, t);
            } else {
                assert forall|j: int| !post.holds_key(j, m, t) by {
                    if j < self.entries.len() {
                        assert(!self.holds_key(j, m, t));
                    }
                }
            }
        }
    }

    pub fn new() -> (r: Self)
        ensures
            forall|m: std::any::TypeId, t: std::any::TypeId| r.channels_for(m, t) is None,
    {
        ChannelRegistry { entries: Vec::new() }
    }

    /// Whether `channel` is registered for the pair of types.
    pub fn has_channel(&self, message: std::any::TypeId, transformer: std::any::TypeId, channel: &ChannelId) -> (r: bool)
        ensures
            r == (self.channels_for(message, transformer) matches Some(s)
                && exists|k: int| 0 <= k < s.len() && (#[trigger] s[k]).name() == channel.name()),
    {
        proof {
            use_type_invariant(self);
        }
        match self.find(&message, &transformer) {
            None => false,
            Some(i) => {
                proof {
                    self.lemma_key_unique(i as int, message, transformer);
                }
                let channels = &self.entries[i].channels;
                let mut k: usize = 0;
                while k < channels.len()
                    invariant
                        0 <= k <= channels.len(),
                        self.channels_for(message, transformer) == Some(channels@),
                        forall|k2: int| 0 <= k2 < k ==> (#[trigger] channels@[k2]).name() != channel.name(),
                    decreases channels.len() - k,
                {
                    if channels[k] == *channel {
                        assert(self.channels_for(message, transformer).unwrap()[k as int].name() == channel.name());
                        return true;
                    }
                    k += 1;
                }
                false
            },
        }
    }

    fn find(&self, message: &std::any::TypeId, transformer: &std::any::TypeId) -> (r: Option<usize>)
        ensures
            match r {
                Some(i) => self.holds_key(i as int, *message, *transformer),
                None => forall|i: int| !self.holds_key(i, *message, *transformer),
            },
    {
        let mut i: usize = 0;
        while i < self.entries.len()
            invariant
                0 <= i <= self.entries.len(),
                forall|j: int| 0 <= j < i ==> !self.holds_key(j, *message, *transformer),
            decreases self.entries.len() - i,
        {
            if type_id_eq(&self.entries[i].message, message) && type_id_eq(&self.entries[i].transformer, transformer) {
                return Some(i);
            }
            i += 1;
        }
        None
    }

    /// Registers `channel` for the pair of types; a channel registered twice
    /// is listed twice. Returns whether the pair was new, in which case the
    /// caller installs the systems that serve it.
    pub fn register(&mut self, message: std::any::TypeId, transformer: std::any::TypeId, channel: ChannelId) -> (first: bool)
        ensures
            first == (old(self).channels_for(message, transformer) is None),
            final(self).channels_for(message, transformer) == Some(
                match old(self).channels_for(message, transformer) {
                    Some(s) => s.push(channel),
                    None => seq![channel],
                }),
            forall|m: std::any::TypeId, t: std::any::TypeId| !(m == message && t == transformer)
                ==> #[trigger] final(self).channels_for(m, t) == old(self).channels_for(m, t),
    {
        proof {
            use_type_invariant(&*self);
        }
        let ghost pre = *self;
        match self.find(&message, &transformer) {
            Some(i) => {
                proof {
                    pre.lemma_key_unique(i as int, message, transformer);
                }
                let mut entries: Vec<RegistryEntry> = Vec::new();
                std::mem::swap(&mut entries, &mut self.entries);
                entries[i].channels.push(channel);
                assert(entries.len() == pre.entries.len());
                assert forall|j: int| 0 <= j < entries.len() implies
                    #[trigger] entries[j].message == pre.entries[j].message
                    && entries[j].transformer == pre.entries[j].transformer
                    && (j != i ==> entries[j].channels@ == pre.entries[j].channels@) by {}
                assert forall|a: int, b: int|
                    0 <= a < entries.len() && 0 <= b < entries.len() && a != b implies
                    !(#[trigger] entries[a].message == #[trigger] entries[b].message
                        && entries[a].transformer == entries[b].transformer) by {
                    assert(pre.entries[a].message == entries[a].message);
                    assert(pre.entries[b].message == entries[b].message);
                }
                self.entries = entries;
                assert(self.holds_key(i as int, message, transformer));
                proof {
                    self.lemma_key_unique(i as int, message, transformer);
                }
                proof {
                    pre.lemma_other_pairs_kept(*self, message, transformer);
                }
                false
            },
            None => {
                let entry = RegistryEntry { message, transformer, channels: vec![channel] };
                let mut entries: Vec<RegistryEntry> = Vec::new();
                std::mem::swap(&mut entries, &mut self.entries);
                entries.push(entry);
                let n = entries.len() - 1;
                assert forall|j: int| 0 <= j < n implies #[trigger] entries[j] == pre.entries[j] by {}
                assert forall|i: int, j: int|
                    0 <= i < entries.len() && 0 <= j < entries.len() && i != j implies
                    !(#[trigger] entries[i].message == #[trigger] entries[j].message
                        && entries[i].transformer == entries[j].transformer) by {
                    if i == n {
                        assert(!pre.holds_key(j, message, transformer));
                    } else if j == n {
                        assert(!pre.holds_key(i, message, transformer));
                    }
                }
                self.entries = entries;
                assert(self.holds_key(n as int, message, transformer));
                proof {
                    self.lemma_key_unique(n as int, message, transformer);
                }
                proof {
                    pre.lemma_other_pairs_kept(*self, message, transformer);
                }
                true
            },
        }
    }
}


/// Registering a channel makes it known for its pair of types: the pair then
/// has the channel, and it is new exactly when nothing was registered for it.
pub proof fn lemma_registered_channel_is_found(
    before: ChannelRegistry,
    after: ChannelRegistry,
    message: std::any::TypeId,
    transformer: std::any::TypeId,
    channel: ChannelId,
)
    requires
        after.channels_for(message, transformer) == Some(
            match before.channels_for(message, transformer) {
                Some(s) => s.push(channel),
                None => seq![channel],
            }),
    ensures
        after.channels_for(message, transformer) matches Some(s)
            && exists|k: int| 0 <= k < s.len() && (#[trigger] s[k]).name() == channel.name(),
{
    let s = after.channels_for(message, transformer).unwrap();
    assert(s[s.len() - 1] == channel);
}

/// Whether the encoder of a node serves a message: the node belongs to the
/// message's channel and is running.
pub fn encoder_accepts(node_channel: &ChannelId, node: &NetworkNode, message_channel: &ChannelId) -> (r: bool)
    ensures
        r == (node_channel.name() == message_channel.name() && node.running),
{
    *node_channel == *message_channel && node.running
}

/// The values of the successful results, in order.
pub open spec fn successes<M>(results: Seq<Result<M, NetworkError>>) -> Seq<M>
    decreases results.len(),
{
    if results.len() == 0 {
        Seq::empty()
    } else {
        let rest = successes(results.drop_first());
        match results[0] {
            Ok(m) => seq![m] + rest,
            Err(_) => rest,
        }
    }
}

/// The errors of the failed results, in order.
pub open spec fn failures<M>(results: Seq<Result<M, NetworkError>>) -> Seq<NetworkError>
    decreases results.len(),
{
    if results.len() == 0 {
        Seq::empty()
    } else {
        let rest = failures(results.drop_first());
        match results[0] {
            Ok(_) => rest,
            Err(e) => seq![e] + rest,
        }
    }
}

/// Splits decoding results into the decoded messages and the errors, each in
/// the order in which the packets arrived.
pub fn partition_results<M>(results: Vec<Result<M, NetworkError>>) -> (r: (Vec<M>, Vec<NetworkError>))
    ensures
        r.0@ == successes(results@),
        r.1@ == failures(results@),
{
    let ghost all = results@;
    let mut rest = results;
    let mut messages: Vec<M> = Vec::new();
    let mut errors: Vec<NetworkError> = Vec::new();
    while rest.len() > 0
        invariant
            messages@ + successes(rest@) == successes(all),
            errors@ + failures(rest@) == failures(all),
        decreases rest.len(),
    {
        let ghost before = rest@;
        let item = rest.remove(0);
        assert(rest@ == before.drop_first());
        match item {
            Ok(m) => {
                assert(messages@.push(m) + successes(rest@) =~= messages@ + (seq![m] + successes(rest@)));
                messages.push(m);
            },
            Err(e) => {
                assert(errors@.push(e) + failures(rest@) =~= errors@ + (seq![e] + failures(rest@)));
                errors.push(e);
            },
        }
    }
    assert(messages@ + successes(rest@) =~= messages@);
    assert(errors@ + failures(rest@) =~= errors@);
    (messages, errors)
}

/// Every decoding result is either a message or an error: the two parts
/// together are as many as the results.
pub proof fn lemma_partition_keeps_count<M>(results: Seq<Result<M, NetworkError>>)
    ensures
        successes(results).len() + failures(results).len() == results.len(),
    decreases results.len(),
{
    if results.len() > 0 {
        lemma_partition_keeps_count(results.drop_first());
    }
}

/// The received-message events for messages decoded on a channel, in order.
pub fn received_messages<M>(channel_id: ChannelId, messages: Vec<M>) -> (r: Vec<ReceiveChannelMessage<M>>)
    ensures
        r.len() == messages.len(),
        forall|i: int| 0 <= i < r.len() ==> (#[trigger] r[i]).channel_id == channel_id && r[i].message == messages@[i],
{
    let ghost all = messages@;
    let mut rest = messages;
    let mut r: Vec<ReceiveChannelMessage<M>> = Vec::new();
    while rest.len() > 0
        invariant
            r.len() + rest.len() == all.len(),
            forall|i: int| 0 <= i < r.len() ==> (#[trigger] r[i]).channel_id == channel_id && r[i].message == all[i],
            forall|i: int| 0 <= i < rest.len() ==> #[trigger] rest[i] == all[r.len() + i],
        decreases rest.len(),
    {
        let m = rest.remove(0);
        r.push(ReceiveChannelMessage::new(channel_id, m));
    }
    assert(all == messages@);
    r
}

/// What a node sends for one encoding result: the encoded bytes as a packet
/// for `addr`, or, when encoding failed, an error event whose text
/// describes the failure.
pub fn encoded_packet(encoded: Result<Vec<u8>, NetworkError>, addr: Option<PeerAddr>) -> (r: Result<NetworkRawPacket, NetworkEvent>)
    ensures
        match encoded {
            Ok(bytes) => r matches Ok(p) && p.addr == addr && bytes_view(p.bytes) == bytes@ && p.text is None,
            Err(e) => r matches Err(NetworkEvent::Error(NetworkError::SerializeError(s))) && e.describes(s@),
        },
{
    match encoded {
        Ok(bytes) => Ok(NetworkRawPacket { addr, bytes: bytes_from_vec(bytes), text: None }),
        Err(e) => Err(NetworkEvent::Error(NetworkError::SerializeError(e.message()))),
    }
}

impl NetworkNode {
    /// Hands one encoding result to the node: the packet to its send queue,
    /// or the error event to its event queue. Returns whether it was a packet.
    pub fn deliver_encoded(&self, encoded: Result<Vec<u8>, NetworkError>, addr: Option<PeerAddr>) -> (r: bool)
        ensures
            r == (encoded is Ok),
    {
        match encoded_packet(encoded, addr) {
            Ok(packet) => {
                let _ = channel_send(&self.send_message_channel.sender, packet);
                true
            },
            Err(event) => {
                let _ = channel_send(&self.event_channel.sender, event);
                false
            },
        }
    }
}

} // verus!
