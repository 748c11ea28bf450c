//! An executor for a single operation, driven by a software interrupt.
//!
//! The executor has one slot. An operation is installed with `spawn` if the
//! slot is idle. Each time the interrupt fires, the handler takes the
//! operation out with `take`, resumes it with a resume handle that triggers
//! the same interrupt again, and reports with `settle` whether the
//! operation is still pending. While the handler has the operation the slot
//! is marked as running, so that the operation has one owner at any time.

use vstd::prelude::*;

verus! {

/// What the slot of an executor holds.
pub enum Slot<Op> {
    /// No operation is installed.
    Idle,
    /// The operation is suspended and waits for the interrupt.
    Parked(Op),
    /// The handler has taken the operation out to resume it.
    Running,
}

/// An executor for one operation at a time. Its view is its slot.
pub struct Executor<Op> {
    slot: Slot<Op>,
}

impl<Op> View for Executor<Op> {
    type V = Slot<Op>;

    closed spec fn view(&self) -> Slot<Op> {
        self.slot
    }
}

/// The slot after an attempt to install `op`.
pub open spec fn slot_after_spawn<Op>(slot: Slot<Op>, op: Op) -> Slot<Op> {
    if slot is Idle {
        Slot::Parked(op)
    } else {
        slot
    }
}

/// The slot after the handler has asked for the operation.
pub open spec fn slot_after_take<Op>(slot: Slot<Op>) -> Slot<Op> {
    if slot is Parked {
        Slot::Running
    } else {
        slot
    }
}

/// The operation the handler gets when it asks for it.
pub open spec fn taken_from<Op>(slot: Slot<Op>) -> Option<Op> {
    match slot {
        Slot::Parked(op) => Some(op),
        _ => None,
    }
}

/// The slot after the handler has reported on a resumption: `pending` is
/// the operation if it is still suspended, `None` if it has completed.
pub open spec fn slot_after_settle<Op>(slot: Slot<Op>, pending: Option<Op>) -> Slot<Op> {
    if slot is Running {
        match pending {
            Some(op) => Slot::Parked(op),
            None => Slot::Idle,
        }
    } else {
        slot
    }
}

impl<Op> Executor<Op> {
    /// An executor with an idle slot.
    pub fn new() -> (executor: Self)
        ensures
            executor@ is Idle,
    {
        Executor { slot: Slot::Idle }
    }

    /// Whether no operation is installed.
    pub fn is_idle(&self) -> (idle: bool)
        ensures
            idle == (self@ is Idle),
    {
        match &self.slot {
            Slot::Idle => true,
            _ => false,
        }
    }

    /// Installs `op` if the slot is idle and returns `None`: the caller
    /// triggers the interrupt. Otherwise changes nothing and hands `op`
    /// back.
    pub fn spawn(&mut self, op: Op) -> (rejected: Option<Op>)
        ensures
            final(self)@ == slot_after_spawn(old(self)@, op),
            rejected == if old(self)@ is Idle {
                None
            } else {
                Some(op)
            },
    {
        match &self.slot {
            Slot::Idle => {
                self.slot = Slot::Parked(op);
                None
            },
            _ => Some(op),
        }
    }

    /// Takes the suspended operation out to resume it and marks the slot as
    /// running. If no operation is suspended, returns `None` and changes
    /// nothing: the interrupt was spurious.
    pub fn take(&mut self) -> (op: Option<Op>)
        ensures
            op == taken_from(old(self)@),
            final(self)@ == slot_after_take(old(self)@),
    {
        let mut slot = Slot::Running;
        core::mem::swap(&mut self.slot, &mut slot);
        match slot {
            Slot::Parked(op) => Some(op),
            Slot::Idle => {
                self.slot = Slot::Idle;
                None
            },
            Slot::Running => None,
        }
    }

    /// Ends a resumption. `pending` is the operation if it is still
    /// suspended, and it is put back; `None` says that it has completed,
    /// and the slot becomes idle. If the slot is not marked as running,
    /// nothing changes and `pending` is handed back.
    pub fn settle(&mut self, pending: Option<Op>) -> (rejected: Option<Op>)
        ensures
            final(self)@ == slot_after_settle(old(self)@, pending),
            rejected == if old(self)@ is Running {
                None
            } else {
                pending
            },
    {
        match &self.slot {
            Slot::Running => {
                match pending {
                    Some(op) => {
                        self.slot = Slot::Parked(op);
                    },
                    None => {
                        self.slot = Slot::Idle;
                    },
                }
                None
            },
            _ => pending,
        }
    }
}

/// The life of an operation in the executor. Installed in an idle slot, it
/// is what the handler gets at the next interrupt. While the handler has
/// it, nothing else can be installed and a second interrupt gets nothing.
/// Reported as pending it is back in the slot for the next interrupt;
/// reported as complete it leaves the slot idle.
pub proof fn lemma_one_operation_at_a_time<Op>(op: Op, other: Op)
    ensures
        ({
            let parked = slot_after_spawn(Slot::<Op>::Idle, op);
            let running = slot_after_take(parked);
            &&& parked == Slot::Parked(op)
            &&& slot_after_spawn(parked, other) == parked
            &&& taken_from(parked) == Some(op)
            &&& running == Slot::<Op>::Running
            &&& slot_after_spawn(running, other) == running
            &&& taken_from(running) is None
            &&& slot_after_settle(running, Some(op)) == parked
            &&& slot_after_settle(running, None) == Slot::<Op>::Idle
        }),
{
}

} // verus!
