//! Why the fair share is fair.
//!
//! The share is followed through an arbitrary sequence of events: new
//! requests, renewed resumptions of requests that wait, and releases. Next
//! to the share a history records which request, counted in order of
//! arrival, received each grant. The grants turn out to go to the requests
//! in exactly the order of their arrival, however the resumptions are
//! interleaved and however often the tickets have wrapped around.

use vstd::prelude::*;

use crate::fair_share::{next_place, place_after, FairShareView, WakerNode};

verus! {

/// Number of distinct tickets.
pub open spec fn ticket_range() -> int {
    usize::MAX + 1
}

/// The ticket of the request that arrives as number `n`, counted from zero,
/// at a share whose first ticket is `first`.
pub open spec fn ticket_of(first: usize, n: int) -> int {
    (first + n) % ticket_range()
}

/// One thing that happens to a share.
pub enum Event<T, W> {
    /// A new request is resumed for the first time and brings its handle.
    Request(W),
    /// The request at this position of the wait list is resumed again.
    Recheck(int),
    /// The holder gives the value back.
    Release(T),
}

/// A share together with the record of what has happened to it.
pub struct History<T, W> {
    pub share: FairShareView<T, W>,
    /// For each entry of the wait list, the arrival number of its request.
    pub queued: Seq<int>,
    /// How many requests have arrived.
    pub requests: int,
    /// The arrival numbers of the requests that were granted access, in the
    /// order of the grants.
    pub grants: Seq<int>,
}

/// A share of `val` with first ticket `first`, to which nothing has
/// happened yet.
pub open spec fn start<T, W>(val: T, first: usize) -> History<T, W> {
    History {
        share: FairShareView { value: Some(val), idx_in: first, idx_out: first, waiting: Seq::empty() },
        queued: Seq::empty(),
        requests: 0,
        grants: Seq::empty(),
    }
}

/// The history after one more event. A renewed resumption at a position
/// that does not exist and a release while nobody holds the value change
/// nothing.
pub open spec fn step<T, W>(h: History<T, W>, e: Event<T, W>) -> History<T, W> {
    match e {
        Event::Request(waker) => {
            let share = h.share.after_resume(None, waker);
            if h.share.grants(None) {
                History { share, requests: h.requests + 1, grants: h.grants.push(h.requests), ..h }
            } else {
                History { share, requests: h.requests + 1, queued: h.queued.push(h.requests), ..h }
            }
        },
        Event::Recheck(i) => {
            if 0 <= i < h.share.waiting.len() {
                let node = h.share.waiting[i];
                let share = h.share.after_resume(Some(node.place), node.waker);
                if h.share.grants(Some(node.place)) {
                    History {
                        share,
                        queued: h.queued.drop_first(),
                        grants: h.grants.push(h.queued[i]),
                        ..h
                    }
                } else {
                    History { share, ..h }
                }
            } else {
                h
            }
        },
        Event::Release(value) => {
            if h.share.value is None {
                History { share: h.share.after_release(value), ..h }
            } else {
                h
            }
        },
    }
}

/// The history after a sequence of events.
pub open spec fn run<T, W>(h: History<T, W>, events: Seq<Event<T, W>>) -> History<T, W>
    decreases events.len(),
{
    if events.len() == 0 {
        h
    } else {
        step(run(h, events.drop_last()), events.last())
    }
}

/// Whether the wait list has room whenever a request arrives in the course
/// of `events`: its length stays within the range of a machine word.
pub open spec fn within_capacity<T, W>(h: History<T, W>, events: Seq<Event<T, W>>) -> bool
    decreases events.len(),
{
    if events.len() == 0 {
        true
    } else {
        &&& within_capacity(h, events.drop_last())
        &&& events.last() is Request ==> run(h, events.drop_last()).share.waiting.len() < usize::MAX
    }
}

/// What holds of every history that began with `start`.
pub open spec fn in_order<T, W>(h: History<T, W>, first: usize) -> bool {
    &&& h.share.wf()
    &&& h.queued.len() == h.share.waiting.len()
    &&& h.requests == h.grants.len() + h.share.waiting.len()
    &&& h.grants.len() >= h.share.lead()
    &&& h.share.idx_out == ticket_of(first, h.grants.len() - h.share.lead())
    &&& h.share.idx_in == ticket_of(first, h.requests)
    &&& forall|j: int| 0 <= j < h.grants.len() ==> #[trigger] h.grants[j] == j
    &&& forall|i: int| 0 <= i < h.queued.len() ==> #[trigger] h.queued[i] == h.grants.len() + i
    &&& forall|i: int|
        0 <= i < h.share.waiting.len() ==> (#[trigger] h.share.waiting[i]).place == ticket_of(
            first,
            h.grants.len() + i,
        )
}

/// Drawing `k` tickets after that of request `n` arrives at the ticket of
/// request `n + k`.
pub proof fn lemma_place_after_ticket(first: usize, n: int, k: int)
    requires
        0 <= n,
        0 <= k <= ticket_range(),
    ensures
        place_after(ticket_of(first, n) as usize, k) == ticket_of(first, n + k),
        0 <= ticket_of(first, n) <= usize::MAX,
{
    let m = ticket_range();
    let a = first + n;
    vstd::arithmetic::div_mod::lemma_fundamental_div_mod(a, m);
    vstd::arithmetic::div_mod::lemma_mod_bound(a, m);
    let r = a % m;
    let q = a / m;
    if r + k <= usize::MAX {
        vstd::arithmetic::div_mod::lemma_fundamental_div_mod_converse(a + k, m, q, r + k);
    } else {
        assert(m * (q + 1) == m * q + m) by (nonlinear_arith);
        vstd::arithmetic::div_mod::lemma_fundamental_div_mod_converse(a + k, m, q + 1, r + k - m);
    }
}

/// The ticket after that of request `n` is that of request `n + 1`.
pub proof fn lemma_next_ticket(first: usize, n: int)
    requires
        0 <= n,
    ensures
        next_place(ticket_of(first, n) as usize) == ticket_of(first, n + 1),
{
    lemma_place_after_ticket(first, n, 1);
}

/// Tickets repeat after one full range: the request that arrives a full
/// range of requests after request `n` draws the ticket that request `n`
/// drew.
pub proof fn lemma_ticket_repeats(first: usize, n: int)
    requires
        0 <= n,
    ensures
        ticket_of(first, n + ticket_range()) == ticket_of(first, n),
{
    lemma_place_after_ticket(first, n, ticket_range());
}


/// The tickets of the requests that are outstanding differ from one
/// another: no two entries of the wait list share a ticket, and while the
/// value is lent out none of them has the holder's ticket.
pub proof fn lemma_live_tickets_distinct<T, W>(share: FairShareView<T, W>)
    requires
        share.wf(),
    ensures
        forall|i: int, j: int|
            0 <= i < j < share.waiting.len() ==> (#[trigger] share.waiting[i]).place != (
            #[trigger] share.waiting[j]).place,
        share.value is None ==> forall|i: int|
            0 <= i < share.waiting.len() ==> (#[trigger] share.waiting[i]).place != share.idx_out,
{
}

/// Of the requests that wait, only the head of the wait list can be granted
/// access, and only while nobody holds the value: resuming the request at
/// position `i` grants access exactly if `i` is zero and the value is free.
/// For a request that waits, this is the same as that the ticket that is
/// served is its own.
pub proof fn lemma_only_head_is_granted<T, W>(share: FairShareView<T, W>, i: int)
    requires
        share.wf(),
        0 <= i < share.waiting.len(),
    ensures
        share.grants(Some(share.waiting[i].place)) <==> (i == 0 && share.value is Some),
        share.idx_out == share.waiting[i].place <==> (i == 0 && share.value is Some),
{
}

/// Resuming a request that waits and is not granted access changes neither
/// the share nor the request, whichever request it is.
pub proof fn lemma_waiting_changes_nothing<T, W>(share: FairShareView<T, W>, i: int, waker: W)
    requires
        share.wf(),
        0 <= i < share.waiting.len(),
        !(i == 0 && share.value is Some),
    ensures
        share.after_resume(Some(share.waiting[i].place), waker) == share,
        share.node_after_resume(Some(share.waiting[i].place)) == Some(share.waiting[i].place),
{
    lemma_only_head_is_granted(share, i);
}

/// One event keeps the history in order.
pub proof fn lemma_step_in_order<T, W>(h: History<T, W>, first: usize, e: Event<T, W>)
    requires
        in_order(h, first),
        e is Request ==> h.share.waiting.len() < usize::MAX,
    ensures
        in_order(step(h, e), first),
{
    let g = h.grants.len() as int;
    let n = h.share.waiting.len() as int;
    let lead = h.share.lead();
    let after = step(h, e);
    lemma_place_after_ticket(first, g - lead, 0);
    lemma_next_ticket(first, h.requests);
    match e {
        Event::Request(waker) => {
            if h.share.can_enter() {
                assert(lead == 0);
            } else {
                lemma_place_after_ticket(first, g - lead, lead + n + 1);
            }
        },
        Event::Recheck(i) => {
            if 0 <= i < n {
                lemma_only_head_is_granted(h.share, i);
                if h.share.grants(Some(h.share.waiting[i].place)) {
                    assert(after.share.waiting =~= h.share.waiting.drop_first());
                    assert forall|k: int| 0 <= k < after.share.waiting.len() implies (
                    #[trigger] after.share.waiting[k]).place == place_after(
                        after.share.idx_out,
                        after.share.lead() + k,
                    ) by {
                        assert(after.share.waiting[k] == h.share.waiting[k + 1]);
                    }
                    assert forall|k: int| 0 <= k < after.share.waiting.len() implies (
                    #[trigger] after.share.waiting[k]).place == ticket_of(
                        first,
                        after.grants.len() + k,
                    ) by {
                        assert(after.share.waiting[k] == h.share.waiting[k + 1]);
                    }
                    assert forall|k: int| 0 <= k < after.queued.len() implies #[trigger] after.queued[k]
                        == after.grants.len() + k by {
                        assert(after.queued[k] == h.queued[k + 1]);
                    }
                }
            }
        },
        Event::Release(value) => {
            if h.share.value is None {
                lemma_next_ticket(first, g - 1);
                assert(after.share.idx_out == next_place(h.share.idx_out));
                assert forall|k: int| 0 <= k < after.share.waiting.len() implies (
                #[trigger] after.share.waiting[k]).place == place_after(
                    after.share.idx_out,
                    after.share.lead() + k,
                ) by {
                    lemma_place_after_ticket(first, g, k);
                }
                lemma_place_after_ticket(first, g, n);
            }
        },
    }
}

/// Access is granted in the order of arrival.
///
/// Take a share that starts with any first ticket, and let any sequence of
/// events happen to it in which the wait list never outgrows a machine
/// word. Then the grant number `j` went to the request that arrived as
/// number `j`; the requests that still wait are the next arrivals, in
/// order; and every ticket in use is that of its request's arrival number,
/// reduced to the range of tickets. No request is skipped and none is
/// granted twice, whatever the order of the resumptions and however many
/// times the tickets have wrapped around.
pub proof fn lemma_grants_follow_arrival<T, W>(val: T, first: usize, events: Seq<Event<T, W>>)
    requires
        within_capacity(start::<T, W>(val, first), events),
    ensures
        in_order(run(start::<T, W>(val, first), events), first),
    decreases events.len(),
{
    let h0 = start::<T, W>(val, first);
    if events.len() == 0 {
        vstd::arithmetic::div_mod::lemma_small_mod(first as nat, ticket_range() as nat);
    } else {
        lemma_grants_follow_arrival::<T, W>(val, first, events.drop_last());
        lemma_step_in_order(run(h0, events.drop_last()), first, events.last());
    }
}

} // verus!
