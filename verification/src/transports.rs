//! Decisions of the transports (UDP, TCP, websocket) between their reads
//! and writes.

use vstd::prelude::*;
use crate::network_node::{NetworkRawPacket, PeerAddr};
use crate::payload::bytes_view;
use vstd::slice::slice_subrange;

verus! {

/// The position of the first `//` in `s` at or after `from`, or -1 when
/// there is none.
pub open spec fn find_double_slash(s: Seq<char>, from: int) -> int
    decreases s.len() - from,
{
    if from < 0 || from + 1 >= s.len() {
        -1
    } else if s[from] == '/' && s[from + 1] == '/' {
        from
    } else {
        find_double_slash(s, from + 1)
    }
}

/// The position of the first `/` in `s` at or after `from`, or the length
/// of `s` when there is none.
pub open spec fn find_slash(s: Seq<char>, from: int) -> int
    decreases s.len() - from,
{
    if from < 0 || from >= s.len() {
        s.len() as int
    } else if s[from] == '/' {
        from
    } else {
        find_slash(s, from + 1)
    }
}

/// The text contains `//`.
pub open spec fn has_double_slash(s: Seq<char>) -> bool {
    find_double_slash(s, 0) >= 0
}

/// The address part of an address text such as `udp://127.0.0.1:4002/path`:
/// what stands after the first `//` up to the next `/` (`127.0.0.1:4002`).
pub open spec fn address_of(s: Seq<char>) -> Seq<char> {
    let start = find_double_slash(s, 0) + 2;
    s.subrange(start, find_slash(s, start))
}

proof fn lemma_find_double_slash_bounds(s: Seq<char>, from: int)
    requires
        0 <= from,
    ensures
        find_double_slash(s, from) == -1 || (from <= find_double_slash(s, from) && find_double_slash(s, from) + 1 < s.len()),
    decreases s.len() - from,
{
    if from + 1 < s.len() && !(s[from] == '/' && s[from + 1] == '/') {
        lemma_find_double_slash_bounds(s, from + 1);
    }
}

proof fn lemma_find_slash_bounds(s: Seq<char>, from: int)
    requires
        0 <= from <= s.len(),
    ensures
        from <= find_slash(s, from) <= s.len(),
    decreases s.len() - from,
{
    if from < s.len() && s[from] != '/' {
        lemma_find_slash_bounds(s, from + 1);
    }
}

/// Whether the text contains `//`, the mark before an address part.
pub fn contains_double_slash(text: &str) -> (r: bool)
    ensures
        r == has_double_slash(text@),
{
    let n = text.unicode_len();
    let mut i: usize = 0;
    while i < n && i + 1 < n
        invariant
            n == text@.len(),
            find_double_slash(text@, i as int) == find_double_slash(text@, 0),
        decreases n - i,
    {
        if text.get_char(i) == '/' && text.get_char(i + 1) == '/' {
            return true;
        }
        i += 1;
    }
    false
}

/// The address part of an address text: what stands after its first `//`
/// up to the next `/`. The text must contain `//`.
pub fn url_address(url: &str) -> (r: &str)
    requires
        has_double_slash(url@),
    ensures
        r@ == address_of(url@),
{
    let n = url.unicode_len();
    let mut i: usize = 0;
    proof {
        lemma_find_double_slash_bounds(url@, 0);
    }
    // Find the first "//".
    while i + 1 < n && !(url.get_char(i) == '/' && url.get_char(i + 1) == '/')
        invariant
            n == url@.len(),
            0 <= i,
            find_double_slash(url@, i as int) == find_double_slash(url@, 0),
            find_double_slash(url@, 0) >= i,
        decreases n - i,
    {
        proof {
            lemma_find_double_slash_bounds(url@, i + 1);
        }
        i += 1;
    }
    let start = i + 2;
    proof {
        lemma_find_slash_bounds(url@, start as int);
    }
    let mut j: usize = start;
    while j < n && url.get_char(j) != '/'
        invariant
            n == url@.len(),
            start <= j <= n,
            find_slash(url@, j as int) == find_slash(url@, start as int),
        decreases n - j,
    {
        j += 1;
    }
    url.substring_char(start, j)
}

/// The result of one attempt to send a datagram.
pub enum SendOutcome {
    /// The datagram was sent.
    Sent,
    /// The peer refused the connection.
    Refused,
    /// Sending failed for another reason.
    Failed,
    /// The attempt did not finish in time.
    TimedOut,
}

/// What the sender does after an attempt.
#[derive(Debug, PartialEq, Eq, Structural)]
pub enum SendDecision {
    /// The datagram is sent: stop with success.
    Finished,
    /// Sending failed for good: stop with the error.
    Abort,
    /// The peer refused: wait a moment, then try again.
    PauseThenRetry,
    /// The attempt timed out: try again at once.
    Retry,
}

/// The attempts made so far to send one datagram, and how many are allowed.
pub struct SendAttempts {
    pub attempts: usize,
    pub max_retries: usize,
}

/// What an attempt's outcome does to the attempt count and what follows it.
pub open spec fn after_attempt(attempts: nat, outcome: SendOutcome) -> (nat, SendDecision) {
    match outcome {
        SendOutcome::Sent => (attempts, SendDecision::Finished),
        SendOutcome::Failed => (attempts, SendDecision::Abort),
        SendOutcome::Refused => (attempts + 1, SendDecision::PauseThenRetry),
        SendOutcome::TimedOut => (attempts + 1, SendDecision::Retry),
    }
}

impl SendAttempts {
    pub fn new(max_retries: usize) -> (r: Self)
        ensures
            r.attempts == 0,
            r.max_retries == max_retries,
    {
        SendAttempts { attempts: 0, max_retries }
    }

    /// Whether another attempt is allowed; when none is, the sender gives up
    /// with a time-out error.
    pub fn may_attempt(&self) -> (r: bool)
        ensures
            r == (self.attempts < self.max_retries),
    {
        self.attempts < self.max_retries
    }

    /// Records the outcome of an attempt that `may_attempt` allowed.
    pub fn record(&mut self, outcome: SendOutcome) -> (d: SendDecision)
        requires
            old(self).attempts < old(self).max_retries,
        ensures
            final(self).max_retries == old(self).max_retries,
            (final(self).attempts as nat, d) == after_attempt(old(self).attempts as nat, outcome),
    {
        match outcome {
            SendOutcome::Sent => SendDecision::Finished,
            SendOutcome::Failed => SendDecision::Abort,
            SendOutcome::Refused => {
                self.attempts += 1;
                SendDecision::PauseThenRetry
            },
            SendOutcome::TimedOut => {
                self.attempts += 1;
                SendDecision::Retry
            },
        }
    }
}

/// How many attempts a sender makes when the attempts have the outcomes in
/// `outcomes`, in order, starting from `attempts` of `max_retries`.
pub open spec fn attempts_made(attempts: nat, max_retries: nat, outcomes: Seq<SendOutcome>) -> nat
    decreases outcomes.len(),
{
    if attempts >= max_retries || outcomes.len() == 0 {
        0
    } else {
        let (next, d) = after_attempt(attempts, outcomes[0]);
        if d == SendDecision::Finished || d == SendDecision::Abort {
            1
        } else {
            1 + attempts_made(next, max_retries, outcomes.drop_first())
        }
    }
}

/// A datagram is tried at most `max_retries` times, whatever the attempts'
/// outcomes.
pub proof fn lemma_attempts_bounded(attempts: nat, max_retries: nat, outcomes: Seq<SendOutcome>)
    requires
        attempts <= max_retries,
    ensures
        attempts_made(attempts, max_retries, outcomes) <= max_retries - attempts,
    decreases outcomes.len(),
{
    if attempts < max_retries && outcomes.len() > 0 {
        let (next, d) = after_attempt(attempts, outcomes[0]);
        if !(d == SendDecision::Finished || d == SendDecision::Abort) {
            lemma_attempts_bounded(next, max_retries, outcomes.drop_first());
        }
    }
}

/// The packet for bytes read from a TCP stream: `None` when the read found
/// the stream closed (no bytes) or failed (`read_len` is `None`); then the
/// connection is over. Otherwise the first `n` bytes of `buffer`, from `peer`.
pub fn read_packet(read_len: Option<usize>, buffer: &[u8], peer: Option<PeerAddr>) -> (r: Option<NetworkRawPacket>)
    requires
        read_len matches Some(n) ==> n <= buffer.len(),
    ensures
        match read_len {
            Some(n) => if n == 0 {
                r is None
            } else {
                r matches Some(p) && p.addr == peer && bytes_view(p.bytes) == buffer@.subrange(0, n as int)
                    && p.text is None
            },
            None => r is None,
        },
{
    match read_len {
        Some(n) => if n == 0 {
            None
        } else {
            Some(NetworkRawPacket::binary(slice_subrange(buffer, 0, n), peer))
        },
        None => None,
    }
}

/// The packet for a datagram of `len` bytes received into `buffer` from
/// `from`; an empty datagram is a packet too.
pub fn datagram_packet(buffer: &[u8], len: usize, from: PeerAddr) -> (p: NetworkRawPacket)
    requires
        len <= buffer.len(),
    ensures
        p.addr == Some(from),
        bytes_view(p.bytes) == buffer@.subrange(0, len as int),
        p.text is None,
{
    NetworkRawPacket::binary(slice_subrange(buffer, 0, len), Some(from))
}

/// A websocket frame to be written.
pub enum WsFrame {
    Text(String),
    Binary(bytes::Bytes),
}

/// The frame written for a packet: its text when it has one, else its bytes.
pub fn ws_frame(packet: NetworkRawPacket) -> (r: WsFrame)
    ensures
        match packet.text {
            Some(t) => r == WsFrame::Text(t),
            None => r == WsFrame::Binary(packet.bytes),
        },
{
    match packet.text {
        Some(t) => WsFrame::Text(t),
        None => WsFrame::Binary(packet.bytes),
    }
}

} // verus!
