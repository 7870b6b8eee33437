//! Client nodes: when a client retries a lost connection.

use vstd::prelude::*;
use crate::network_node::NetworkEvent;
use crate::error::NetworkError;

verus! {

/// What a client does with one node event under its reconnect setting.
pub struct ReconnectStep {
    /// The retry count after the event.
    pub retries: usize,
    /// Whether a reconnect timer is to be started.
    pub start_timer: bool,
}

/// The retry count and the timer decision that follow `event`, for a client
/// that has used `retries` of its `max_retries` attempts.
///
/// A client with no attempts left ignores every event. Otherwise each event
/// counts as an attempt; `Listen` or `Connected` then resets the count, and a
/// disconnect or a failure to connect starts the reconnect timer.
pub open spec fn reconnect_next(retries: nat, max_retries: nat, event: NetworkEvent) -> (nat, bool) {
    if retries >= max_retries {
        (retries, false)
    } else if event.is_up() {
        (0, false)
    } else if event.ends_connection() {
        (retries + 1, true)
    } else {
        (retries + 1, false)
    }
}

/// Decides what a client does when its node raises `event`.
pub fn client_reconnect(retries: usize, max_retries: usize, event: &NetworkEvent) -> (r: ReconnectStep)
    ensures
        (r.retries as nat, r.start_timer) == reconnect_next(retries as nat, max_retries as nat, *event),
        r.start_timer == (retries < max_retries && (*event is Disconnected
            || *event matches NetworkEvent::Error(NetworkError::Connection(_)))),
{
    if retries >= max_retries {
        return ReconnectStep { retries, start_timer: false };
    }
    let counted = retries + 1;
    if event.reports_up() {
        ReconnectStep { retries: 0, start_timer: false }
    } else if event.reports_connection_end() {
        ReconnectStep { retries: counted, start_timer: true }
    } else {
        ReconnectStep { retries: counted, start_timer: false }
    }
}

/// The retry count after a client saw `events`, in order.
pub open spec fn retries_after(retries: nat, max_retries: nat, events: Seq<NetworkEvent>) -> nat
    decreases events.len(),
{
    if events.len() == 0 {
        retries
    } else {
        retries_after(reconnect_next(retries, max_retries, events[0]).0, max_retries, events.drop_first())
    }
}

/// How many reconnect timers a client starts while it sees `events`, in order.
pub open spec fn timers_started(retries: nat, max_retries: nat, events: Seq<NetworkEvent>) -> nat
    decreases events.len(),
{
    if events.len() == 0 {
        0
    } else {
        let (next, timer) = reconnect_next(retries, max_retries, events[0]);
        (if timer { 1nat } else { 0nat }) + timers_started(next, max_retries, events.drop_first())
    }
}

/// The retry count never passes the limit: a client within its limit stays
/// within it whatever events follow.
pub proof fn lemma_retries_within_limit(retries: nat, max_retries: nat, events: Seq<NetworkEvent>)
    requires
        retries <= max_retries,
    ensures
        retries_after(retries, max_retries, events) <= max_retries,
    decreases events.len(),
{
    if events.len() > 0 {
        lemma_retries_within_limit(reconnect_next(retries, max_retries, events[0]).0, max_retries, events.drop_first());
    }
}

/// Until a connection succeeds, a client starts at most as many reconnect
/// timers as it has attempts left.
pub proof fn lemma_timers_bounded_by_attempts(retries: nat, max_retries: nat, events: Seq<NetworkEvent>)
    requires
        retries <= max_retries,
        forall|i: int| 0 <= i < events.len() ==> !(#[trigger] events[i]).is_up(),
    ensures
        timers_started(retries, max_retries, events) <= max_retries - retries,
    decreases events.len(),
{
    if events.len() > 0 {
        let next = reconnect_next(retries, max_retries, events[0]).0;
        assert(!events[0].is_up());
        assert forall|i: int| 0 <= i < events.drop_first().len() implies !(#[trigger] events.drop_first()[i]).is_up() by {
            assert(events.drop_first()[i] == events[i + 1]);
        }
        lemma_timers_bounded_by_attempts(next, max_retries, events.drop_first());
    }
}

/// A client that has used all its attempts stays as it is: its count does
/// not change and it starts no timer, whatever events follow.
pub proof fn lemma_exhausted_client_is_inert(max_retries: nat, events: Seq<NetworkEvent>)
    ensures
        retries_after(max_retries, max_retries, events) == max_retries,
        timers_started(max_retries, max_retries, events) == 0,
    decreases events.len(),
{
    if events.len() > 0 {
        lemma_exhausted_client_is_inert(max_retries, events.drop_first());
    }
}

/// A client starts a reconnect timer exactly when it has attempts left and
/// the event is a disconnect or a failure to connect: an error in a message
/// (serialize, deserialize), an I/O, listen or common error never starts one,
/// and neither does listening or connecting.
pub proof fn lemma_timer_only_on_lost_connection(retries: nat, max_retries: nat, event: NetworkEvent)
    ensures
        reconnect_next(retries, max_retries, event).1 <==> (retries < max_retries && (event is Disconnected
            || event matches NetworkEvent::Error(NetworkError::Connection(_)))),
        (event matches NetworkEvent::Error(e) && !(e is Connection))
            ==> !reconnect_next(retries, max_retries, event).1,
{
}

} // verus!
