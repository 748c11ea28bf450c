use dwm1001_async::fair_share::{FairShare, FairShareAccessFuture, FairShareExclusiveAccess};
use dwm1001_async::poll::Poll;
use std::sync::atomic::{AtomicUsize, Ordering};
use std::sync::Arc;
use std::task::{Wake, Waker};

fn granted<T>(poll: Poll<FairShareExclusiveAccess<T>>) -> FairShareExclusiveAccess<T> {
    match poll {
        Poll::Ready(access) => access,
        Poll::Pending => panic!("access was not granted"),
    }
}

#[test]
fn new_share_is_free_and_starts_at_ticket_zero() {
    let fs: FairShare<u32, u8> = FairShare::new(7);
    assert!(fs.is_free());
    assert_eq!(fs.idx_in(), 0);
    assert_eq!(fs.idx_out(), 0);
    assert_eq!(fs.waiting(), 0);
}

#[test]
fn access_is_fresh_and_changes_nothing() {
    let fs: FairShare<u32, u8> = FairShare::new(7);
    let request = fs.access();
    assert_eq!(request.ticket(), None);
    assert!(fs.is_free());
    assert_eq!(fs.idx_in(), 0);
    assert_eq!(fs.waiting(), 0);
}

#[test]
fn three_requesters_are_served_in_order() {
    let mut fs: FairShare<u32, &str> = FairShare::new(0);
    let mut a = fs.access();
    let mut b = fs.access();
    let mut c = fs.access();

    let access_a = granted(a.poll(&mut fs, "a"));
    assert_eq!(access_a.ticket(), 0);
    assert!(!fs.is_free());
    assert_eq!(fs.idx_out(), 0);

    assert!(b.poll(&mut fs, "b").is_pending());
    assert_eq!(b.ticket(), Some(1));
    assert!(c.poll(&mut fs, "c").is_pending());
    assert_eq!(c.ticket(), Some(2));
    assert_eq!(fs.waiting(), 2);
    assert_eq!(fs.idx_in(), 3);

    let next = access_a.release(&mut fs);
    assert_eq!(next, Some("b"));
    assert_eq!(fs.idx_out(), 1);
    assert!(fs.is_free());

    // C is resumed before B: it has to go on waiting.
    assert!(c.poll(&mut fs, "c").is_pending());
    assert_eq!(fs.waiting(), 2);

    let access_b = granted(b.poll(&mut fs, "b"));
    assert_eq!(access_b.ticket(), 1);
    assert_eq!(b.ticket(), None);
    assert_eq!(fs.waiting(), 1);

    assert!(c.poll(&mut fs, "c").is_pending());
    assert_eq!(c.ticket(), Some(2));

    let next = access_b.release(&mut fs);
    assert_eq!(next, Some("c"));
    assert_eq!(fs.idx_out(), 2);

    let access_c = granted(c.poll(&mut fs, "c"));
    assert_eq!(access_c.ticket(), 2);
    assert_eq!(fs.waiting(), 0);

    let next = access_c.release(&mut fs);
    assert_eq!(next, None);
    assert_eq!(fs.idx_out(), 3);
    assert_eq!(fs.idx_in(), 3);
    assert!(fs.is_free());
}

#[test]
fn grants_follow_arrival_whatever_the_order_of_resumption() {
    let n = 6usize;
    let mut fs: FairShare<Vec<usize>, usize> = FairShare::new(Vec::new());
    let mut requests: Vec<FairShareAccessFuture> = Vec::new();
    let mut holder = None;
    for id in 0..n {
        let mut request = fs.access();
        match request.poll(&mut fs, id) {
            Poll::Ready(access) => {
                assert_eq!(id, 0);
                holder = Some(access);
            }
            Poll::Pending => assert_eq!(request.ticket(), Some(id)),
        }
        requests.push(request);
    }
    for round in 0..n {
        let mut access = holder.take().unwrap();
        assert_eq!(access.ticket(), round);
        access.push(round);
        let next = access.release(&mut fs);
        if round + 1 < n {
            assert_eq!(next, Some(round + 1));
        } else {
            assert_eq!(next, None);
        }
        // Resume the waiting requests from the youngest down.
        for id in (round + 1..n).rev() {
            match requests[id].poll(&mut fs, id) {
                Poll::Ready(access) => {
                    assert_eq!(id, round + 1);
                    holder = Some(access);
                }
                Poll::Pending => assert!(id > round + 1 || holder.is_some()),
            }
        }
    }
    assert!(holder.is_none());
    let mut last = fs.access();
    let access = granted(last.poll(&mut fs, n));
    assert_eq!(*access, vec![0, 1, 2, 3, 4, 5]);
}

#[test]
fn waiting_request_keeps_its_first_handle() {
    let mut fs: FairShare<u8, u32> = FairShare::new(0);
    let mut a = fs.access();
    let mut b = fs.access();
    let access = granted(a.poll(&mut fs, 10));
    assert!(b.poll(&mut fs, 20).is_pending());
    assert!(b.poll(&mut fs, 21).is_pending());
    assert_eq!(fs.waiting(), 1);
    assert_eq!(fs.idx_in(), 2);
    assert_eq!(access.release(&mut fs), Some(20));
}

#[test]
fn newcomer_waits_behind_a_requester_whose_turn_it_is() {
    let mut fs: FairShare<u8, u32> = FairShare::new(0);
    let mut a = fs.access();
    let mut b = fs.access();
    let mut c = fs.access();
    let access = granted(a.poll(&mut fs, 1));
    assert!(b.poll(&mut fs, 2).is_pending());
    assert_eq!(access.release(&mut fs), Some(2));
    // The value is free, but it is B's turn.
    assert!(fs.is_free());
    assert!(c.poll(&mut fs, 3).is_pending());
    assert_eq!(c.ticket(), Some(2));
    let access = granted(b.poll(&mut fs, 2));
    assert_eq!(access.ticket(), 1);
    assert_eq!(access.release(&mut fs), Some(3));
    assert_eq!(granted(c.poll(&mut fs, 3)).ticket(), 2);
}

#[test]
fn tickets_wrap_around_and_order_holds() {
    let mut fs: FairShare<u32, char> = FairShare::starting_at(0, usize::MAX - 1);
    assert_eq!(fs.idx_in(), usize::MAX - 1);
    assert_eq!(fs.idx_out(), usize::MAX - 1);
    let mut a = fs.access();
    let mut b = fs.access();
    let mut c = fs.access();
    let mut d = fs.access();

    let mut access = granted(a.poll(&mut fs, 'a'));
    assert_eq!(access.ticket(), usize::MAX - 1);
    assert!(b.poll(&mut fs, 'b').is_pending());
    assert_eq!(b.ticket(), Some(usize::MAX));
    assert!(c.poll(&mut fs, 'c').is_pending());
    assert_eq!(c.ticket(), Some(0));
    assert!(d.poll(&mut fs, 'd').is_pending());
    assert_eq!(d.ticket(), Some(1));
    assert_eq!(fs.idx_in(), 2);

    *access += 1;
    assert_eq!(access.release(&mut fs), Some('b'));
    assert_eq!(fs.idx_out(), usize::MAX);
    assert!(d.poll(&mut fs, 'd').is_pending());
    assert!(c.poll(&mut fs, 'c').is_pending());
    let mut access = granted(b.poll(&mut fs, 'b'));
    *access += 1;
    assert_eq!(access.release(&mut fs), Some('c'));
    assert_eq!(fs.idx_out(), 0);
    assert!(d.poll(&mut fs, 'd').is_pending());
    let mut access = granted(c.poll(&mut fs, 'c'));
    *access += 1;
    assert_eq!(access.release(&mut fs), Some('d'));
    assert_eq!(fs.idx_out(), 1);
    let mut access = granted(d.poll(&mut fs, 'd'));
    *access += 1;
    assert_eq!(*access, 4);
    assert_eq!(access.release(&mut fs), None);
    assert_eq!(fs.idx_out(), 2);
    assert_eq!(fs.idx_in(), 2);
}

#[test]
fn release_on_the_last_ticket_wraps_to_zero() {
    let mut fs: FairShare<(), u8> = FairShare::starting_at((), usize::MAX);
    let mut a = fs.access();
    let access = granted(a.poll(&mut fs, 0));
    assert_eq!(access.ticket(), usize::MAX);
    assert_eq!(fs.idx_in(), 0);
    assert_eq!(access.release(&mut fs), None);
    assert_eq!(fs.idx_out(), 0);
    let mut b = fs.access();
    assert_eq!(granted(b.poll(&mut fs, 0)).ticket(), 0);
}

#[test]
fn guard_reads_and_writes_the_value() {
    let mut fs: FairShare<String, u8> = FairShare::new(String::from("one"));
    let mut a = fs.access();
    let mut access = granted(a.poll(&mut fs, 0));
    assert_eq!(access.len(), 3);
    assert_eq!(*access, "one");
    access.push_str(" two");
    assert_eq!(access.release(&mut fs), None);
    let mut b = fs.access();
    let access = granted(b.poll(&mut fs, 0));
    assert_eq!(*access, "one two");
}

#[test]
fn granted_request_is_fresh_again() {
    let mut fs: FairShare<u8, u8> = FairShare::new(0);
    let mut a = fs.access();
    let access = granted(a.poll(&mut fs, 0));
    assert_eq!(a.ticket(), None);
    // Resumed again while its own guard is out, it is a new request.
    assert!(a.poll(&mut fs, 1).is_pending());
    assert_eq!(a.ticket(), Some(1));
    assert_eq!(access.release(&mut fs), Some(1));
    assert_eq!(granted(a.poll(&mut fs, 1)).ticket(), 1);
}

struct CountingWaker {
    woken: AtomicUsize,
}

impl Wake for CountingWaker {
    fn wake(self: Arc<Self>) {
        self.woken.fetch_add(1, Ordering::SeqCst);
    }
}

#[test]
fn release_returns_the_waker_of_the_next_in_line() {
    let first = Arc::new(CountingWaker { woken: AtomicUsize::new(0) });
    let second = Arc::new(CountingWaker { woken: AtomicUsize::new(0) });
    let third = Arc::new(CountingWaker { woken: AtomicUsize::new(0) });
    let mut fs: FairShare<u32, Waker> = FairShare::new(0);
    let mut a = fs.access();
    let mut b = fs.access();
    let mut c = fs.access();
    let access = granted(a.poll(&mut fs, Waker::from(first.clone())));
    assert!(b.poll(&mut fs, Waker::from(second.clone())).is_pending());
    assert!(c.poll(&mut fs, Waker::from(third.clone())).is_pending());

    let next = access.release(&mut fs).unwrap();
    next.wake();
    assert_eq!(first.woken.load(Ordering::SeqCst), 0);
    assert_eq!(second.woken.load(Ordering::SeqCst), 1);
    assert_eq!(third.woken.load(Ordering::SeqCst), 0);

    let access = granted(b.poll(&mut fs, Waker::from(second.clone())));
    let next = access.release(&mut fs).unwrap();
    next.wake();
    assert_eq!(second.woken.load(Ordering::SeqCst), 1);
    assert_eq!(third.woken.load(Ordering::SeqCst), 1);

    let access = granted(c.poll(&mut fs, Waker::from(third.clone())));
    assert!(access.release(&mut fs).is_none());
}
