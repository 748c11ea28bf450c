//! Fair, ticket-ordered exclusive access to one shared value.
//!
//! Every request draws a ticket. The value is lent to one requester at a
//! time, and the tickets are served in the order in which they were drawn.
//! A requester that has to wait leaves a resume handle in the wait list;
//! releasing the value names the next ticket and returns the handle of its
//! owner, which the caller invokes once it has left its critical section.
//!
//! Tickets are machine words and wrap around. They are only ever compared
//! for equality, and only tickets of requests that are still outstanding are
//! compared, so the wrap is harmless.

use std::collections::VecDeque;
use vstd::prelude::*;

use crate::poll::Poll;

verus! {

/// The ticket after `place`, wrapping at the end of the range.
pub open spec fn next_place(place: usize) -> usize {
    if place == usize::MAX {
        0
    } else {
        (place + 1) as usize
    }
}

/// The ticket `k` draws after `place`, for `k` up to the size of the range.
pub open spec fn place_after(place: usize, k: int) -> int {
    if place + k <= usize::MAX {
        place + k
    } else {
        place + k - usize::MAX - 1
    }
}

/// One entry of the wait list: a suspended requester's ticket and the handle
/// that resumes it.
pub struct WakerNode<W> {
    pub waker: W,
    pub place: usize,
}

impl<W> WakerNode<W> {
    /// A node for `waker` that has not drawn a ticket yet.
    pub fn new(waker: W) -> (node: Self)
        ensures
            node.waker == waker,
            node.place == 0,
    {
        WakerNode { waker, place: 0 }
    }
}

/// The bookkeeping of a fair share: the ticket counters and the wait list.
pub struct FairShareManagement<W> {
    /// Next ticket to hand out.
    idx_in: usize,
    /// Ticket that is served now.
    idx_out: usize,
    /// Suspended requesters, oldest first.
    queue: VecDeque<WakerNode<W>>,
}

impl<W> FairShareManagement<W> {
    pub closed spec fn idx_in(&self) -> usize {
        self.idx_in
    }

    pub closed spec fn idx_out(&self) -> usize {
        self.idx_out
    }

    pub closed spec fn waiting(&self) -> Seq<WakerNode<W>> {
        self.queue@
    }

    /// Bookkeeping that starts at ticket `first` with nobody waiting.
    pub fn new(first: usize) -> (m: Self)
        ensures
            m.idx_in() == first,
            m.idx_out() == first,
            m.waiting() == Seq::<WakerNode<W>>::empty(),
    {
        FairShareManagement { idx_in: first, idx_out: first, queue: VecDeque::new() }
    }

    /// Draws a ticket for a requester that has to wait and appends it, with
    /// its resume handle, to the wait list. Returns the ticket.
    pub fn enqueue(&mut self, waker: W) -> (place: usize)
        ensures
            place == old(self).idx_in(),
            final(self).idx_in() == next_place(old(self).idx_in()),
            final(self).idx_out() == old(self).idx_out(),
            final(self).waiting() == old(self).waiting().push(WakerNode { waker, place }),
            final(self).waiting().len() <= usize::MAX,
    {
        let current = self.idx_in;
        self.idx_in = current.wrapping_add(1);
        let mut node = WakerNode::new(waker);
        node.place = current;
        self.queue.push_back(node);
        assert(self.queue@.len() == self.queue.len());
        current
    }

    /// Unlinks the head of the wait list, if there is one.
    pub fn dequeue_head(&mut self)
        ensures
            final(self).idx_in() == old(self).idx_in(),
            final(self).idx_out() == old(self).idx_out(),
            final(self).waiting() == if old(self).waiting().len() > 0 {
                old(self).waiting().drop_first()
            } else {
                old(self).waiting()
            },
    {
        let _head = self.queue.pop_front();
        proof {
            if old(self).waiting().len() > 0 {
                assert(self.queue@ =~= old(self).waiting().drop_first());
            }
        }
    }

    /// If nobody waits and every ticket drawn so far has been served, draws
    /// the next ticket for the caller, who may enter at once, and returns
    /// `true`. Otherwise changes nothing and returns `false`.
    pub fn try_direct_access(&mut self) -> (entered: bool)
        ensures
            entered == (old(self).waiting().len() == 0 && old(self).idx_in() == old(self).idx_out()),
            final(self).idx_in() == if entered {
                next_place(old(self).idx_in())
            } else {
                old(self).idx_in()
            },
            final(self).idx_out() == old(self).idx_out(),
            final(self).waiting() == old(self).waiting(),
    {
        if self.queue.len() == 0 && self.idx_in == self.idx_out {
            let current = self.idx_in;
            self.idx_in = current.wrapping_add(1);
            true
        } else {
            false
        }
    }
}


/// A fair share as its contracts see it.
pub struct FairShareView<T, W> {
    /// The shared value while nobody has it; `None` while it is lent out.
    pub value: Option<T>,
    /// Next ticket to hand out.
    pub idx_in: usize,
    /// Ticket that is served now.
    pub idx_out: usize,
    /// Suspended requesters, oldest first.
    pub waiting: Seq<WakerNode<W>>,
}

impl<T, W> FairShareView<T, W> {
    /// Number of tickets between the one that is served and the first that
    /// waits: one while the value is lent out, none while it is free.
    pub open spec fn lead(self) -> int {
        if self.value is None {
            1
        } else {
            0
        }
    }

    /// The outstanding tickets are consecutive: the holder's, if any, then
    /// those of the wait list in order, then the next to be drawn.
    pub open spec fn wf(self) -> bool {
        &&& self.waiting.len() <= usize::MAX
        &&& forall|i: int|
            0 <= i < self.waiting.len() ==> (#[trigger] self.waiting[i]).place == place_after(
                self.idx_out,
                self.lead() + i,
            )
        &&& self.idx_in == place_after(self.idx_out, self.lead() + self.waiting.len())
    }

    /// Whether a new requester may enter without waiting.
    pub open spec fn can_enter(self) -> bool {
        self.waiting.len() == 0 && self.idx_in == self.idx_out
    }

    /// Whether it is the turn of the waiting requester with ticket `place`.
    pub open spec fn turn_of(self, place: usize) -> bool {
        self.value is Some && self.waiting.len() > 0 && self.idx_out == place
    }

    /// Whether resuming a request grants access. `node` is the ticket the
    /// request waits with, or `None` if it is resumed for the first time.
    pub open spec fn grants(self, node: Option<usize>) -> bool {
        match node {
            None => self.can_enter(),
            Some(place) => self.turn_of(place),
        }
    }

    /// The share after resuming a request that brings the handle `waker`.
    pub open spec fn after_resume(self, node: Option<usize>, waker: W) -> Self {
        match node {
            None => if self.can_enter() {
                FairShareView { value: None, idx_in: next_place(self.idx_in), ..self }
            } else {
                FairShareView {
                    idx_in: next_place(self.idx_in),
                    waiting: self.waiting.push(WakerNode { waker, place: self.idx_in }),
                    ..self
                }
            },
            Some(place) => if self.turn_of(place) {
                FairShareView { value: None, waiting: self.waiting.drop_first(), ..self }
            } else {
                self
            },
        }
    }

    /// The ticket a request waits with after it has been resumed.
    pub open spec fn node_after_resume(self, node: Option<usize>) -> Option<usize> {
        match node {
            None => if self.can_enter() {
                None
            } else {
                Some(self.idx_in)
            },
            Some(place) => if self.turn_of(place) {
                None
            } else {
                node
            },
        }
    }

    /// The ticket under which a granted request holds the value.
    pub open spec fn granted_place(self, node: Option<usize>) -> usize {
        match node {
            None => self.idx_in,
            Some(place) => place,
        }
    }

    /// The share after its holder gives `value` back: the next ticket in
    /// line is served, which is that of the head of the wait list if
    /// somebody waits, else the next ticket to be drawn.
    pub open spec fn after_release(self, value: T) -> Self {
        FairShareView {
            value: Some(value),
            idx_out: if self.waiting.len() > 0 {
                self.waiting[0].place
            } else {
                self.idx_in
            },
            ..self
        }
    }
}

/// A value shared fairly among requesters that hand in resume handles of
/// type `W`.
pub struct FairShare<T, W> {
    /// The value, while nobody holds it.
    storage: Option<T>,
    management: FairShareManagement<W>,
}

impl<T, W> View for FairShare<T, W> {
    type V = FairShareView<T, W>;

    closed spec fn view(&self) -> FairShareView<T, W> {
        FairShareView {
            value: self.storage,
            idx_in: self.management.idx_in(),
            idx_out: self.management.idx_out(),
            waiting: self.management.waiting(),
        }
    }
}

/// A request for access. It is resumed with `poll` until it reports the
/// guard.
pub struct FairShareAccessFuture {
    /// The ticket this request waits with, once it is in the wait list.
    node: Option<usize>,
}

impl FairShareAccessFuture {
    /// The ticket this request waits with, or `None` if it is not in a wait
    /// list.
    pub closed spec fn place(&self) -> Option<usize> {
        self.node
    }

    /// The ticket this request waits with, if it waits.
    pub fn ticket(&self) -> (place: Option<usize>)
        ensures
            place == self.place(),
    {
        self.node
    }
}

/// Exclusive access to the shared value. The guard holds the value until it
/// is released.
pub struct FairShareExclusiveAccess<T> {
    value: T,
    place: usize,
}

impl<T> View for FairShareExclusiveAccess<T> {
    type V = T;

    closed spec fn view(&self) -> T {
        self.value
    }
}

impl<T> FairShareExclusiveAccess<T> {
    /// The ticket under which the value is held.
    pub closed spec fn place(&self) -> usize {
        self.place
    }

    /// The ticket under which the value is held.
    pub fn ticket(&self) -> (place: usize)
        ensures
            place == self.place(),
    {
        self.place
    }
}

/// What resuming a request does: the share and the request change as
/// `after_resume` and `node_after_resume` say, and the value is handed over
/// exactly if `grants` holds.
pub open spec fn resumed<T, W>(
    pre: FairShareView<T, W>,
    node: Option<usize>,
    waker: W,
    post: FairShareView<T, W>,
    node_post: Option<usize>,
    granted: Option<FairShareExclusiveAccess<T>>,
) -> bool {
    &&& post == pre.after_resume(node, waker)
    &&& post.wf()
    &&& node_post == pre.node_after_resume(node)
    &&& match granted {
        Some(access) => {
            &&& pre.grants(node)
            &&& pre.value == Some(access@)
            &&& access.place() == pre.granted_place(node)
            &&& access.place() == post.idx_out
        },
        None => !pre.grants(node),
    }
}

/// What giving the value back does: the share changes as `after_release`
/// says, and the handle that comes back is a clone of that of the new head
/// of the wait list, if there is one.
pub open spec fn released<T, W: Clone>(
    pre: FairShareView<T, W>,
    value: T,
    post: FairShareView<T, W>,
    next: Option<W>,
) -> bool {
    &&& post == pre.after_release(value)
    &&& post.wf()
    &&& post.idx_out == next_place(pre.idx_out)
    &&& match next {
        Some(waker) => pre.waiting.len() > 0 && cloned(pre.waiting[0].waker, waker),
        None => pre.waiting.len() == 0,
    }
}

impl<T, W> FairShare<T, W> {
    /// A share of `val` that nobody holds and nobody waits for. Its first
    /// ticket is zero.
    pub fn new(val: T) -> (fs: Self)
        ensures
            fs@ == (FairShareView::<T, W> {
                value: Some(val),
                idx_in: 0,
                idx_out: 0,
                waiting: Seq::empty(),
            }),
            fs@.wf(),
    {
        FairShare { storage: Some(val), management: FairShareManagement::new(0) }
    }

    /// Like `new`, with `first` as the first ticket.
    pub fn starting_at(val: T, first: usize) -> (fs: Self)
        ensures
            fs@ == (FairShareView::<T, W> {
                value: Some(val),
                idx_in: first,
                idx_out: first,
                waiting: Seq::empty(),
            }),
            fs@.wf(),
    {
        FairShare { storage: Some(val), management: FairShareManagement::new(first) }
    }

    /// A fresh request for access. It changes nothing until it is resumed.
    pub fn access(&self) -> (request: FairShareAccessFuture)
        ensures
            request.place() is None,
    {
        FairShareAccessFuture { node: None }
    }

    /// One resumption of a request, to be run while nothing else can touch
    /// the share. `request` is the ticket the request waits with, if it
    /// waits, and its resume handle; the ticket it waits with afterwards
    /// comes back with the guard, if access was granted.
    fn resume(&mut self, request: (Option<usize>, W)) -> (outcome: (
        Option<usize>,
        Option<FairShareExclusiveAccess<T>>,
    ))
        requires
            old(self)@.wf(),
        ensures
            resumed(old(self)@, request.0, request.1, final(self)@, outcome.0, outcome.1),
    {
        let (node, waker) = request;
        match node {
            Some(place) => {
                if self.management.idx_out == place && self.storage.is_some()
                    && self.management.queue.len() > 0 {
                    // Our turn: leave the wait list and take the value.
                    self.management.dequeue_head();
                    let value = self.storage.take().unwrap();
                    (None, Some(FairShareExclusiveAccess { value, place }))
                } else {
                    // Continue waiting.
                    (node, None)
                }
            },
            None => {
                let place = self.management.idx_in;
                if self.management.try_direct_access() {
                    // Nobody holds the value or waits for it.
                    let value = self.storage.take().unwrap();
                    (None, Some(FairShareExclusiveAccess { value, place }))
                } else {
                    let place = self.management.enqueue(waker);
                    (Some(place), None)
                }
            },
        }
    }
}

impl<T, W: Clone> FairShare<T, W> {
    /// Takes the value back from its holder and serves the next ticket, to
    /// be run while nothing else can touch the share.
    fn hand_over(&mut self, value: T) -> (next: Option<W>)
        requires
            old(self)@.wf(),
            old(self)@.value is None,
        ensures
            released(old(self)@, value, final(self)@, next),
    {
        self.storage = Some(value);
        if self.management.queue.len() > 0 {
            let head = &self.management.queue[0];
            self.management.idx_out = head.place;
            Some(head.waker.clone())
        } else {
            self.management.idx_out = self.management.idx_in;
            None
        }
    }
}

/// Runs `f` on `state` and `arg` as the closure of `critical_section::with`.
/// That function enters the critical section, calls its closure once,
/// leaves the critical section and returns what the closure returned. So
/// what holds of one call of `f` holds of this call: `f` must accept the
/// arguments, and the state afterwards and the result are as `f` leaves
/// them.
#[verifier::external_body]
fn in_critical_section<S, A, R, F: FnOnce(&mut S, A) -> R>(state: &mut S, arg: A, f: F) -> (r: R)
    requires
        call_requires(f, (state, arg)),
    ensures
        call_ensures(f, (state, arg), r),
{
    critical_section::with(|_token| f(state, arg))
}

impl<T, W> FairShare<T, W> {
    /// The ticket that is served now.
    pub fn idx_out(&self) -> (place: usize)
        ensures
            place == self@.idx_out,
    {
        self.management.idx_out
    }

    /// The next ticket to hand out.
    pub fn idx_in(&self) -> (place: usize)
        ensures
            place == self@.idx_in,
    {
        self.management.idx_in
    }

    /// How many requesters wait.
    pub fn waiting(&self) -> (n: usize)
        ensures
            n == self@.waiting.len(),
    {
        self.management.queue.len()
    }

    /// Whether nobody holds the value.
    pub fn is_free(&self) -> (free: bool)
        ensures
            free == (self@.value is Some),
    {
        self.storage.is_some()
    }
}

impl FairShareAccessFuture {
    /// Resumes the request inside a critical section.
    ///
    /// The first time, the requester enters at once if nobody holds the
    /// value or waits for it; else it draws a ticket and joins the wait list
    /// with `waker`. Later, it is granted access when its ticket is served,
    /// and leaves the wait list; until then nothing changes. A request that
    /// was granted is fresh again.
    pub fn poll<T, W>(&mut self, fs: &mut FairShare<T, W>, waker: W) -> (granted: Poll<
        FairShareExclusiveAccess<T>,
    >)
        requires
            old(fs)@.wf(),
        ensures
            resumed(
                old(fs)@,
                old(self).place(),
                waker,
                final(fs)@,
                final(self).place(),
                match granted {
                    Poll::Ready(access) => Some(access),
                    Poll::Pending => None,
                },
            ),
    {
        let (node, granted) = in_critical_section(fs, (self.node, waker), FairShare::resume);
        self.node = node;
        match granted {
            Some(access) => Poll::Ready(access),
            None => Poll::Pending,
        }
    }
}

impl<T> FairShareExclusiveAccess<T> {
    /// Whether this guard is the one that holds the value of `fs`.
    pub open spec fn holds<W>(&self, fs: FairShareView<T, W>) -> bool {
        fs.value is None && fs.idx_out == self.place()
    }

    /// Gives the value back, inside a critical section, and serves the next
    /// ticket. Returns the resume handle of the requester whose turn it now
    /// is, if one waits: the caller invokes it.
    pub fn release<W: Clone>(self, fs: &mut FairShare<T, W>) -> (next: Option<W>)
        requires
            old(fs)@.wf(),
            self.holds(old(fs)@),
        ensures
            released(old(fs)@, self@, final(fs)@, next),
    {
        in_critical_section(fs, self.value, FairShare::hand_over)
    }
}


impl<T> core::ops::Deref for FairShareExclusiveAccess<T> {
    type Target = T;

    /// The shared value.
    fn deref(&self) -> (value: &T)
        ensures
            *value == self@,
    {
        &self.value
    }
}

impl<T> core::ops::DerefMut for FairShareExclusiveAccess<T> {
    /// The shared value, to change it.
    fn deref_mut(&mut self) -> (value: &mut T)
        ensures
            *value == old(self)@,
            final(self)@ == *final(value),
            final(self).place() == old(self).place(),
    {
        &mut self.value
    }
}

} // verus!
