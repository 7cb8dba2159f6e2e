//! What holds of the correlation engine over whole runs.
//!
//! Replies pair with requests by id alone, in whatever order they arrive. A
//! reply touches no entry but its own, and an orphaned reply touches nothing.
//! Request ids are never reserved ids, do not repeat within a period, and are
//! not handed out while in flight; slot numbers do not repeat either. The
//! latency of a probe is the time between the two instants it is given.
//!
//! The laws speak of the functions by which the contracts of the connection
//! core say what it does, so each holds of every run of the core.

use crate::client::{
    action_on, elapsed_ms, initial_state, next_id_after, next_slot_after, pending_after,
    ping_outcome, ClientErrorView, ClientState, InboundView, ListenerActionView,
};
use crate::request::{FIRST_REQ_ID, HELLO_REQ_ID, PING_REQ_ID};
use crate::response::{ResponseMsgView, ResponseTypeView};
use crate::table::{nothing_pending, slot_of};
use vstd::prelude::*;

verus! {

/// The id whose entry `event` resolves, where it resolves one.
pub open spec fn target(event: InboundView) -> Option<i32> {
    match event {
        InboundView::Text { decoded: Some(msg) } => Some(msg.correlation_id()),
        InboundView::Pong => Some(PING_REQ_ID),
        _ => None,
    }
}

/// What is pending when the first `k` of `events` have been handled in turn.
pub open spec fn pending_before(pending: Map<i32, u64>, events: Seq<InboundView>, k: nat) -> Map<
    i32,
    u64,
>
    decreases k,
{
    if k == 0 {
        pending
    } else {
        pending_after(pending_before(pending, events, (k - 1) as nat), events[k - 1])
    }
}

/// What the reader does about the event at position `k` when `events` are
/// handled in turn.
pub open spec fn action_at(
    pending: Map<i32, u64>,
    events: Seq<InboundView>,
    k: nat,
) -> ListenerActionView {
    action_on(pending_before(pending, events, k), events[k as int])
}

/// No two of `events` resolve the entry of the same id.
pub open spec fn distinct_targets(events: Seq<InboundView>) -> bool {
    forall|i: int, j: int|
        0 <= i < j < events.len() && target(events[i]) is Some ==> target(events[i]) != target(
            events[j],
        )
}

/// What is pending when each of `ids` has been registered in turn with the
/// slot at its position in `slots`.
pub open spec fn registered(pending: Map<i32, u64>, ids: Seq<i32>, slots: Seq<u64>) -> Map<i32, u64>
    decreases ids.len(),
{
    if ids.len() == 0 {
        pending
    } else {
        registered(pending, ids.drop_last(), slots.drop_last()).insert(ids.last(), slots.last())
    }
}

/// The id handed out by the `n`-th call, counted from zero, of a generator
/// whose next id is `start`.
pub open spec fn nth_id(start: i32, n: nat) -> i32
    decreases n,
{
    if n == 0 {
        start
    } else {
        next_id_after(nth_id(start, (n - 1) as nat))
    }
}

/// The number of ids that are handed out before one repeats: every 32-bit
/// value but the two reserved ones.
pub open spec fn id_period() -> int {
    0x1_0000_0000 - 2
}

/// The position of `id` in the order in which ids are handed out, counted
/// from the first ordinary id.
pub open spec fn id_rank(id: i32) -> int {
    if id >= FIRST_REQ_ID {
        id - FIRST_REQ_ID
    } else if id < PING_REQ_ID {
        (i32::MAX - FIRST_REQ_ID + 1) + (id - i32::MIN)
    } else {
        id_period() - 1
    }
}

proof fn lemma_event_spares_other_entries(pending: Map<i32, u64>, event: InboundView, id: i32)
    requires
        target(event) != Some(id),
    ensures
        slot_of(pending_after(pending, event), id) == slot_of(pending, id),
{
}

proof fn lemma_untargeted_entry_stays(
    pending: Map<i32, u64>,
    events: Seq<InboundView>,
    k: nat,
    id: i32,
)
    requires
        k <= events.len(),
        forall|i: int| 0 <= i < k ==> target(#[trigger] events[i]) != Some(id),
    ensures
        slot_of(pending_before(pending, events, k), id) == slot_of(pending, id),
    decreases k,
{
    if k > 0 {
        lemma_untargeted_entry_stays(pending, events, (k - 1) as nat, id);
        lemma_event_spares_other_entries(
            pending_before(pending, events, (k - 1) as nat),
            events[k - 1],
            id,
        );
    }
}

/// Replies pair with requests by id alone. When no two events of a run
/// resolve the same id, what the reader does about each of them is what it
/// would have done had that event arrived first: it resolves the slot that was
/// registered under the event's id with the reply that the event carries,
/// whatever arrived before it and in whatever order.
pub proof fn lemma_replies_pair_by_id(pending: Map<i32, u64>, events: Seq<InboundView>, k: nat)
    requires
        k < events.len(),
        distinct_targets(events),
    ensures
        action_at(pending, events, k) == action_on(pending, events[k as int]),
{
    match target(events[k as int]) {
        Some(id) => {
            assert forall|i: int| 0 <= i < k implies target(#[trigger] events[i]) != Some(id) by {
                if target(events[i]) is Some {
                    assert(target(events[i]) != target(events[k as int]));
                }
            }
            lemma_untargeted_entry_stays(pending, events, k, id);
            let before = pending_before(pending, events, k);
            assert(slot_of(before, id) == slot_of(pending, id));
            assert(before.contains_key(id) == pending.contains_key(id));
        },
        None => {},
    }
}

/// Each of several requests registered under distinct ids is pending with the
/// slot that it was registered with.
pub proof fn lemma_registered_under_own_id(
    pending: Map<i32, u64>,
    ids: Seq<i32>,
    slots: Seq<u64>,
    k: int,
)
    requires
        ids.len() == slots.len(),
        0 <= k < ids.len(),
        forall|i: int, j: int| 0 <= i < j < ids.len() ==> ids[i] != ids[j],
    ensures
        slot_of(registered(pending, ids, slots), ids[k]) == Some(slots[k]),
    decreases ids.len(),
{
    if k < ids.len() - 1 {
        lemma_registered_under_own_id(pending, ids.drop_last(), slots.drop_last(), k);
    }
}

/// A reply to request `id` resolves the entry of `id` and no other: every
/// other entry is pending afterwards as it was before, with the same slot.
/// This holds of a reply that reports a failure as of any other.
pub proof fn lemma_reply_resolves_only_its_entry(
    pending: Map<i32, u64>,
    msg: ResponseMsgView,
    other: i32,
)
    requires
        other != msg.correlation_id(),
    ensures
        !pending_after(pending, InboundView::Text { decoded: Some(msg) }).contains_key(
            msg.correlation_id(),
        ),
        slot_of(pending_after(pending, InboundView::Text { decoded: Some(msg) }), other) == slot_of(
            pending,
            other,
        ),
        pending.contains_key(msg.correlation_id()) && msg.reply() is Error ==> action_on(
            pending,
            InboundView::Text { decoded: Some(msg) },
        ) == (ListenerActionView::Deliver {
            slot: pending[msg.correlation_id()],
            reply: msg.reply(),
        }),
{
}

/// A reply whose id has nothing pending is dropped: the table stays as it
/// was, no slot is resolved or dropped, and the reader goes on.
pub proof fn lemma_orphaned_reply_changes_nothing(pending: Map<i32, u64>, event: InboundView)
    requires
        target(event) is Some,
        !pending.contains_key(target(event)->0),
    ensures
        pending_after(pending, event) == pending,
        action_on(pending, event) == (ListenerActionView::DropOrphaned {
            request_id: target(event)->0,
        }),
{
    assert(pending_after(pending, event) =~= pending);
}

proof fn lemma_rank_of_next(id: i32)
    requires
        id != HELLO_REQ_ID,
        id != PING_REQ_ID,
    ensures
        next_id_after(id) != HELLO_REQ_ID,
        next_id_after(id) != PING_REQ_ID,
        0 <= id_rank(id) < id_period(),
        id_rank(next_id_after(id)) == (id_rank(id) + 1) % id_period(),
{
    let rank = id_rank(id);
    if rank + 1 < id_period() {
        vstd::arithmetic::div_mod::lemma_small_mod((rank + 1) as nat, id_period() as nat);
    } else {
        vstd::arithmetic::div_mod::lemma_mod_self_0(id_period());
    }
}

proof fn lemma_rank_of_nth(start: i32, n: nat)
    requires
        start != HELLO_REQ_ID,
        start != PING_REQ_ID,
    ensures
        nth_id(start, n) != HELLO_REQ_ID,
        nth_id(start, n) != PING_REQ_ID,
        id_rank(nth_id(start, n)) == (id_rank(start) + n) % id_period(),
    decreases n,
{
    lemma_rank_of_next(start);
    if n > 0 {
        lemma_rank_of_nth(start, (n - 1) as nat);
        lemma_rank_of_next(nth_id(start, (n - 1) as nat));
        vstd::arithmetic::div_mod::lemma_add_mod_noop(id_rank(start) + n - 1, 1, id_period());
        vstd::arithmetic::div_mod::lemma_small_mod(1, id_period() as nat);
        vstd::arithmetic::div_mod::lemma_mod_twice(id_rank(start) + n - 1, id_period());
    } else {
        vstd::arithmetic::div_mod::lemma_small_mod(id_rank(start) as nat, id_period() as nat);
    }
}

/// No id handed out is one of the two reserved ids.
pub proof fn lemma_ids_are_never_reserved(start: i32, n: nat)
    requires
        start != HELLO_REQ_ID,
        start != PING_REQ_ID,
    ensures
        nth_id(start, n) != HELLO_REQ_ID,
        nth_id(start, n) != PING_REQ_ID,
{
    lemma_rank_of_nth(start, n);
}

/// No id repeats within one period: two calls fewer than `id_period()` calls
/// apart are handed different ids.
pub proof fn lemma_ids_do_not_repeat(start: i32, i: nat, j: nat)
    requires
        start != HELLO_REQ_ID,
        start != PING_REQ_ID,
        i < j < i + id_period(),
    ensures
        nth_id(start, i) != nth_id(start, j),
{
    lemma_rank_of_nth(start, i);
    lemma_rank_of_nth(start, j);
    vstd::arithmetic::div_mod::lemma_fundamental_div_mod(id_rank(start) + i, id_period());
    vstd::arithmetic::div_mod::lemma_fundamental_div_mod(id_rank(start) + j, id_period());
}

/// Whether `id` was handed out by one of the first `issued` calls of a fresh
/// generator.
pub open spec fn handed_out(id: i32, issued: nat) -> bool {
    exists|k: nat| k < issued && #[trigger] nth_id(FIRST_REQ_ID, k) == id
}

/// Whether `state` fits a connection that has registered `issued` ordinary
/// requests since it was made: the generator stands at the id of the next
/// one, and nothing is pending but under a reserved id or an id handed out.
pub open spec fn in_step(state: ClientState, issued: nat) -> bool {
    &&& state.next_id == nth_id(FIRST_REQ_ID, issued)
    &&& forall|id: i32| #[trigger]
        state.pending.contains_key(id) ==> id == HELLO_REQ_ID || id == PING_REQ_ID || handed_out(
            id,
            issued,
        )
}

/// An id is not handed out while it is in flight: as long as a connection has
/// registered fewer requests than there are ids, nothing is pending under the
/// id of the next one, so that registering it displaces no slot.
pub proof fn lemma_fresh_id_is_not_in_flight(state: ClientState, issued: nat)
    requires
        in_step(state, issued),
        issued < id_period(),
    ensures
        !state.pending.contains_key(state.next_id),
        slot_of(state.pending, state.next_id) is None,
{
    lemma_ids_are_never_reserved(FIRST_REQ_ID, issued);
    if state.pending.contains_key(state.next_id) {
        let k = choose|k: nat| k < issued && #[trigger] nth_id(FIRST_REQ_ID, k) == state.next_id;
        lemma_ids_do_not_repeat(FIRST_REQ_ID, k, issued);
    }
}

/// A connection stays in step with every request it registers, every
/// handshake and probe it registers, every unit it handles, and when it gives
/// up what is pending.
pub proof fn lemma_connection_stays_in_step(state: ClientState, issued: nat, event: InboundView)
    requires
        in_step(state, issued),
    ensures
        in_step(state.with_request(), issued + 1),
        in_step(state.registered(HELLO_REQ_ID), issued),
        in_step(state.registered(PING_REQ_ID), issued),
        in_step(ClientState { pending: pending_after(state.pending, event), ..state }, issued),
        in_step(ClientState { ready: true, ..state }, issued),
        in_step(ClientState { pending: nothing_pending(), ..state }, issued),
{
    let after = state.with_request();
    assert forall|id: i32| #[trigger] after.pending.contains_key(id) implies id == HELLO_REQ_ID
        || id == PING_REQ_ID || handed_out(id, issued + 1) by {
        if id == state.next_id {
            assert(nth_id(FIRST_REQ_ID, issued) == id);
        } else {
            assert(state.pending.contains_key(id));
            if handed_out(id, issued) {
                let k = choose|k: nat| k < issued && #[trigger] nth_id(FIRST_REQ_ID, k) == id;
                assert(k < issued + 1 && nth_id(FIRST_REQ_ID, k) == id);
            }
        }
    }
    let handled = pending_after(state.pending, event);
    assert forall|id: i32| #[trigger] handled.contains_key(id) implies state.pending.contains_key(
        id,
    ) by {}
}

/// A connection that has just been made is in step.
pub proof fn lemma_new_connection_is_in_step()
    ensures
        in_step(initial_state(), 0),
        in_step(initial_state().registered(HELLO_REQ_ID), 0),
{
}

/// The slot number given to the `n`-th registration, counted from zero, of a
/// connection whose next slot number is `start`.
pub open spec fn nth_slot(start: u64, n: nat) -> u64
    decreases n,
{
    if n == 0 {
        start
    } else {
        next_slot_after(nth_slot(start, (n - 1) as nat))
    }
}

proof fn lemma_nth_slot(start: u64, n: nat)
    ensures
        nth_slot(start, n) == (start + n) % 0x1_0000_0000_0000_0000,
    decreases n,
{
    if n > 0 {
        lemma_nth_slot(start, (n - 1) as nat);
        vstd::arithmetic::div_mod::lemma_add_mod_noop(start + n - 1, 1, 0x1_0000_0000_0000_0000);
        vstd::arithmetic::div_mod::lemma_small_mod(1, 0x1_0000_0000_0000_0000);
        vstd::arithmetic::div_mod::lemma_mod_twice(start + n - 1, 0x1_0000_0000_0000_0000);
        let before = nth_slot(start, (n - 1) as nat);
        if before == u64::MAX {
            vstd::arithmetic::div_mod::lemma_mod_self_0(0x1_0000_0000_0000_0000);
        } else {
            vstd::arithmetic::div_mod::lemma_small_mod(
                (before + 1) as nat,
                0x1_0000_0000_0000_0000,
            );
        }
    } else {
        vstd::arithmetic::div_mod::lemma_small_mod(start as nat, 0x1_0000_0000_0000_0000);
    }
}

/// No two callers await under the same slot number: registrations fewer than
/// 2^64 apart are given different slot numbers.
pub proof fn lemma_slots_do_not_repeat(start: u64, i: nat, j: nat)
    requires
        i < j < i + 0x1_0000_0000_0000_0000,
    ensures
        nth_slot(start, i) != nth_slot(start, j),
{
    lemma_nth_slot(start, i);
    lemma_nth_slot(start, j);
    vstd::arithmetic::div_mod::lemma_fundamental_div_mod(start + i, 0x1_0000_0000_0000_0000);
    vstd::arithmetic::div_mod::lemma_fundamental_div_mod(start + j, 0x1_0000_0000_0000_0000);
}

/// The latency that a probe reports is the time from the instant it was sent
/// to the instant its slot was resolved: a pong that comes `delay`
/// milliseconds after the probe gives `delay`, and no clock reading gives a
/// negative latency.
pub proof fn lemma_ping_reports_the_delay(sent_at_ms: u64, delay: u64, resolved_at_ms: u64)
    ensures
        sent_at_ms + delay <= u64::MAX ==> ping_outcome(
            Some(ResponseTypeView::Pong),
            sent_at_ms,
            (sent_at_ms + delay) as u64,
        ) == Ok::<u64, ClientErrorView>(delay),
        elapsed_ms(sent_at_ms, resolved_at_ms) >= 0,
        ping_outcome(Some(ResponseTypeView::Pong), sent_at_ms, resolved_at_ms) is Ok,
{
}

/// Each caller gets the reply to its own request. When requests have been
/// registered under distinct ids, each with its own slot, and replies arrive
/// in any order, no two to the same request, then the reply to a request
/// resolves the slot of that request with what the reply carries.
pub proof fn lemma_each_caller_gets_its_reply(
    pending: Map<i32, u64>,
    ids: Seq<i32>,
    slots: Seq<u64>,
    events: Seq<InboundView>,
    k: nat,
    j: int,
)
    requires
        ids.len() == slots.len(),
        forall|a: int, b: int| 0 <= a < b < ids.len() ==> ids[a] != ids[b],
        distinct_targets(events),
        k < events.len(),
        0 <= j < ids.len(),
        target(events[k as int]) == Some(ids[j]),
    ensures
        action_at(registered(pending, ids, slots), events, k) == match events[k as int] {
            InboundView::Text { decoded: Some(msg) } => if msg.reply() is Unrecognized {
                ListenerActionView::Abandon { slot: slots[j] }
            } else {
                ListenerActionView::Deliver { slot: slots[j], reply: msg.reply() }
            },
            _ => ListenerActionView::Deliver { slot: slots[j], reply: ResponseTypeView::Pong },
        },
{
    lemma_replies_pair_by_id(registered(pending, ids, slots), events, k);
    lemma_registered_under_own_id(pending, ids, slots, j);
}

/// A fresh generator counts upwards from the first ordinary id until the
/// largest 32-bit value has been handed out.
pub proof fn lemma_fresh_ids_count_up(n: nat)
    requires
        FIRST_REQ_ID + n <= i32::MAX,
    ensures
        nth_id(FIRST_REQ_ID, n) == FIRST_REQ_ID + n,
    decreases n,
{
    if n > 0 {
        lemma_fresh_ids_count_up((n - 1) as nat);
    }
}

} // verus!
