//! An SPI transfer by DMA as an operation that is suspended while the
//! hardware works and resumed by the completion interrupt.
//!
//! The driver never touches the hardware itself. Each resumption is told
//! whether the hardware reports the transfer as complete, moves the state
//! machine one step and answers with what the caller has to do to the
//! hardware next. The peripheral and the buffer are owned by the state
//! machine, one variant at a time, so neither ever has two owners.
//!
//! The resume handle travels through a single-slot queue: the resumption
//! puts it in before the caller is told to enable the interrupt, and the
//! interrupt takes it out. An interrupt therefore always finds the handle
//! of the operation it concerns, and an interrupt that finds the queue empty
//! is spurious and does nothing.

use vstd::prelude::*;

use crate::ssq::{slot_after_dequeue, slot_after_enqueue, taken_by_dequeue, SingleSlotQueue};

verus! {

/// Who owns the peripheral.
pub enum SpiOrTransfer<P, B> {
    /// Stands in while the state is moved from one of the other two to the
    /// other. Never there at rest.
    Intermediate,
    /// The peripheral is idle.
    Spi(P),
    /// The peripheral works on a buffer by DMA.
    Transfer(P, B),
}

/// The transfer failed. The only failure is that there was nothing to
/// transfer: an operation was resumed on an idle driver after it had given
/// its buffer away.
#[derive(Debug, PartialEq, Eq, Structural)]
pub struct SpiError {}

/// What one resumption of a transfer reports, and with it what the caller
/// has to do to the hardware.
pub enum Progress<B> {
    /// Suspended. The buffer was handed to the driver: clear and enable the
    /// completion interrupt and start the DMA.
    Started,
    /// Suspended. The transfer is still under way: enable the completion
    /// interrupt again.
    Running,
    /// Completed, with the buffer that was transferred.
    Done(Result<B, SpiError>),
}

impl<B> Progress<B> {
    /// Whether the operation stays suspended.
    pub fn is_pending(&self) -> (pending: bool)
        ensures
            pending == !(self is Done),
    {
        match self {
            Progress::Done(_) => false,
            _ => true,
        }
    }
}

/// Where the queue of resume handles lives. It is shared by the two halves
/// of the driver, which are handed it for each step.
pub struct Storage<W> {
    waker_queue: SingleSlotQueue<W>,
}

impl<W> View for Storage<W> {
    type V = Option<W>;

    /// The resume handle that waits for the interrupt, if any.
    closed spec fn view(&self) -> Option<W> {
        self.waker_queue@
    }
}

/// The half of the driver that runs in the completion interrupt.
pub struct Backend {}

/// The half of the driver that the tasks use. Its view is its state.
pub struct Handle<P, B> {
    state: SpiOrTransfer<P, B>,
}

impl<P, B> View for Handle<P, B> {
    type V = SpiOrTransfer<P, B>;

    closed spec fn view(&self) -> SpiOrTransfer<P, B> {
        self.state
    }
}

/// One transfer. It is resumed with `poll` until it reports `Done`. Its
/// view is the buffer it still has to hand to the driver.
pub struct TransferFuture<B> {
    buf: Option<B>,
}

impl<B> View for TransferFuture<B> {
    type V = Option<B>;

    closed spec fn view(&self) -> Option<B> {
        self.buf
    }
}

/// The state of the driver after a resumption. `buf` is the buffer the
/// operation still has, `done` whether the hardware reports completion.
pub open spec fn state_after_poll<P, B>(state: SpiOrTransfer<P, B>, buf: Option<B>, done: bool) -> SpiOrTransfer<P, B> {
    match state {
        SpiOrTransfer::Spi(spi) => match buf {
            Some(b) => SpiOrTransfer::Transfer(spi, b),
            None => state,
        },
        SpiOrTransfer::Transfer(spi, b) => if done {
            SpiOrTransfer::Spi(spi)
        } else {
            state
        },
        SpiOrTransfer::Intermediate => state,
    }
}

/// The buffer the operation still has after a resumption: it gives its
/// buffer away when it finds the driver idle.
pub open spec fn buf_after_poll<P, B>(state: SpiOrTransfer<P, B>, buf: Option<B>) -> Option<B> {
    match state {
        SpiOrTransfer::Spi(_) => None,
        _ => buf,
    }
}

/// What a resumption reports.
pub open spec fn progress_of_poll<P, B>(state: SpiOrTransfer<P, B>, buf: Option<B>, done: bool) -> Progress<B> {
    match state {
        SpiOrTransfer::Spi(_) => match buf {
            Some(_) => Progress::Started,
            None => Progress::Done(Err(SpiError {  })),
        },
        SpiOrTransfer::Transfer(_, b) => if done {
            Progress::Done(Ok(b))
        } else {
            Progress::Running
        },
        SpiOrTransfer::Intermediate => Progress::Running,
    }
}

/// The queue of resume handles after a resumption that brought `waker`: a
/// resumption that stays suspended offers its handle to the queue.
pub open spec fn queue_after_poll<P, B, W>(
    state: SpiOrTransfer<P, B>,
    buf: Option<B>,
    done: bool,
    queue: Option<W>,
    waker: W,
) -> Option<W> {
    if progress_of_poll(state, buf, done) is Done {
        queue
    } else {
        slot_after_enqueue(queue, waker)
    }
}

impl<W> Storage<W> {
    /// Storage with an empty queue.
    pub fn new() -> (storage: Self)
        ensures
            storage@ is None,
    {
        Storage { waker_queue: SingleSlotQueue::new() }
    }

    /// Makes the two halves of a driver for the peripheral `spi`, which
    /// starts idle. The storage itself is not changed.
    pub fn split<P, B>(&mut self, spi: P) -> (halves: (Handle<P, B>, Backend))
        ensures
            halves.0@ == SpiOrTransfer::<P, B>::Spi(spi),
            final(self)@ == old(self)@,
    {
        (Handle { state: SpiOrTransfer::Spi(spi) }, Backend {  })
    }
}

impl Backend {
    /// The driver's part of the completion interrupt, to be run after the
    /// interrupt has been disabled at the peripheral. Takes the resume
    /// handle out of the queue and returns it for the caller to invoke. If
    /// the queue is empty the interrupt was spurious and nothing happens.
    pub fn spim_interrupt<W>(&mut self, storage: &mut Storage<W>) -> (waker: Option<W>)
        ensures
            waker == taken_by_dequeue(old(storage)@),
            final(storage)@ == slot_after_dequeue(old(storage)@),
    {
        storage.waker_queue.dequeue()
    }
}

impl<P, B> Handle<P, B> {
    /// The handle is at rest: it owns the peripheral, idle or transferring.
    pub open spec fn wf(&self) -> bool {
        !(self@ is Intermediate)
    }

    /// Whether no transfer is under way.
    pub fn is_idle(&self) -> (idle: bool)
        ensures
            idle == (self@ is Spi),
    {
        match &self.state {
            SpiOrTransfer::Spi(_) => true,
            _ => false,
        }
    }

    /// The peripheral, to perform what a resumption has asked for.
    pub fn peripheral(&self) -> (spi: Option<&P>)
        ensures
            spi == match self@ {
                SpiOrTransfer::Spi(p) => Some(&p),
                SpiOrTransfer::Transfer(p, _) => Some(&p),
                SpiOrTransfer::Intermediate => None,
            },
    {
        match &self.state {
            SpiOrTransfer::Spi(p) => Some(p),
            SpiOrTransfer::Transfer(p, _) => Some(p),
            SpiOrTransfer::Intermediate => None,
        }
    }

    /// The buffer that is being transferred, to start the DMA on it.
    pub fn buffer(&self) -> (buf: Option<&B>)
        ensures
            buf == match self@ {
                SpiOrTransfer::Transfer(_, b) => Some(&b),
                _ => None,
            },
    {
        match &self.state {
            SpiOrTransfer::Transfer(_, b) => Some(b),
            _ => None,
        }
    }

    /// A transfer of `buf`. Nothing happens until it is resumed.
    pub fn transfer(&mut self, buf: B) -> (future: TransferFuture<B>)
        ensures
            future@ == Some(buf),
            final(self)@ == old(self)@,
    {
        TransferFuture { buf: Some(buf) }
    }
}

impl<B> TransferFuture<B> {
    /// Resumes the transfer. `done` says whether the hardware reports the
    /// transfer that is under way, if any, as complete.
    ///
    /// On an idle driver the buffer and the peripheral become a transfer
    /// and the operation is suspended. While a transfer is under way and not
    /// complete, the operation stays suspended and nothing changes. Once
    /// the transfer is complete, the driver is idle again and the buffer
    /// comes back. Whenever the operation is suspended, `waker` is offered
    /// to the queue first, so that the queue holds a handle by the time the
    /// caller enables the interrupt.
    pub fn poll<P, W>(
        &mut self,
        aspi: &mut Handle<P, B>,
        storage: &mut Storage<W>,
        waker: W,
        done: bool,
    ) -> (progress: Progress<B>)
        requires
            old(aspi).wf(),
        ensures
            final(aspi).wf(),
            final(aspi)@ == state_after_poll(old(aspi)@, old(self)@, done),
            final(self)@ == buf_after_poll(old(aspi)@, old(self)@),
            progress == progress_of_poll(old(aspi)@, old(self)@, done),
            final(storage)@ == queue_after_poll(old(aspi)@, old(self)@, done, old(storage)@, waker),
            !(progress is Done) ==> final(storage)@ is Some,
    {
        let mut state = SpiOrTransfer::Intermediate;
        core::mem::swap(&mut aspi.state, &mut state);
        match state {
            SpiOrTransfer::Spi(spi) => {
                match self.buf.take() {
                    Some(buf) => {
                        // Leave the handle for the interrupt, then hand the
                        // buffer over.
                        let _ = storage.waker_queue.enqueue(waker);
                        aspi.state = SpiOrTransfer::Transfer(spi, buf);
                        Progress::Started
                    },
                    None => {
                        aspi.state = SpiOrTransfer::Spi(spi);
                        Progress::Done(Err(SpiError {  }))
                    },
                }
            },
            SpiOrTransfer::Transfer(spi, buf) => {
                if done {
                    // Get the peripheral and the buffer back.
                    aspi.state = SpiOrTransfer::Spi(spi);
                    Progress::Done(Ok(buf))
                } else {
                    // Woken for another reason: wait for the next interrupt.
                    let _ = storage.waker_queue.enqueue(waker);
                    aspi.state = SpiOrTransfer::Transfer(spi, buf);
                    Progress::Running
                }
            },
            SpiOrTransfer::Intermediate => vstd::pervasive::unreached(),
        }
    }
}

/// The life of one transfer. Resuming a transfer of `buf` on an idle driver
/// turns the driver to transferring and suspends the operation, whatever
/// the hardware says. Resuming it again before the hardware reports
/// completion suspends it again and changes nothing. Resuming it once the
/// hardware reports completion hands back the very buffer, with the driver
/// idle and owning the same peripheral. The buffer comes back once: the
/// operation has none left, and resuming it yet again fails.
pub proof fn lemma_transfer_round_trip<P, B>(spi: P, buf: B, done: bool)
    ensures
        ({
            let idle = SpiOrTransfer::<P, B>::Spi(spi);
            let busy = SpiOrTransfer::<P, B>::Transfer(spi, buf);
            let fresh = Some(buf);
            let spent = None::<B>;
            &&& state_after_poll(idle, fresh, done) == busy
            &&& buf_after_poll(idle, fresh) == spent
            &&& progress_of_poll(idle, fresh, done) == Progress::<B>::Started
            &&& state_after_poll(busy, spent, false) == busy
            &&& buf_after_poll(busy, spent) == spent
            &&& progress_of_poll(busy, spent, false) == Progress::<B>::Running
            &&& state_after_poll(busy, spent, true) == idle
            &&& buf_after_poll(busy, spent) == spent
            &&& progress_of_poll(busy, spent, true) == Progress::Done(Ok::<B, SpiError>(buf))
            &&& state_after_poll(idle, spent, done) == idle
            &&& progress_of_poll(idle, spent, done) == Progress::Done(Err::<B, SpiError>(SpiError {  }))
        }),
{
}

/// No wakeup is lost. When a resumption leaves the operation suspended,
/// the interrupt that follows finds a resume handle in the queue and
/// leaves the queue empty, so that a second, spurious interrupt finds
/// nothing.
pub proof fn lemma_interrupt_finds_handle<P, B, W>(
    state: SpiOrTransfer<P, B>,
    buf: Option<B>,
    done: bool,
    queue: Option<W>,
    waker: W,
)
    requires
        !(progress_of_poll(state, buf, done) is Done),
    ensures
        ({
            let queued = queue_after_poll(state, buf, done, queue, waker);
            &&& taken_by_dequeue(queued) is Some
            &&& queue is None ==> taken_by_dequeue(queued) == Some(waker)
            &&& taken_by_dequeue(slot_after_dequeue(queued)) is None
        }),
{
}

} // verus!
