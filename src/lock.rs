//! Per-thread bookkeeping of a reentrant read/write lock.
//!
//! One `LockCache` belongs to one thread. It records that thread's interest in
//! a shared read/write primitive and decides, for each acquisition and
//! release, whether the primitive itself has to be taken or given back. Only
//! the first read (none to one) and the sole write touch the primitive; nested
//! acquisitions are counted here and nowhere else.
use vstd::prelude::*;

verus! {

/// A thread's interest in the shared primitive.
#[derive(PartialEq, Eq, Structural, Clone, Copy, Debug)]
pub enum Interest {
    /// Holds nothing.
    Idle,
    /// Holds the primitive for reading, through this many nested guards.
    Reading(usize),
    /// Holds the primitive for writing.
    Writing,
}

/// What one acquisition got, and what its release must undo.
#[derive(PartialEq, Eq, Structural, Clone, Copy, Debug)]
pub enum Ticket {
    /// The first read: the shared primitive was taken for reading.
    ReadOuter,
    /// A nested read: counted only.
    ReadNested,
    /// The write: the shared primitive was taken for writing.
    WriteOuter,
    /// Any acquisition under a write already held: nothing to undo.
    Passive,
}

/// Ways a thread can misuse the lock. Each is a programming error.
#[derive(PartialEq, Eq, Structural, Clone, Copy, Debug)]
pub enum LockMisuse {
    /// A write was asked for while this thread holds a read, which would
    /// deadlock against itself.
    WriteWhileReading,
    /// A guard was released out of the reverse order of acquisition.
    OutOfOrder,
    /// Nested reads exceed what the counter can hold.
    TooDeep,
}

/// Interests that can occur: a reading thread holds at least one guard.
pub open spec fn interest_wf(i: Interest) -> bool {
    match i {
        Interest::Reading(n) => n >= 1,
        _ => true,
    }
}

/// The interest after a read is acquired, and the ticket handed out.
pub open spec fn read_step(i: Interest) -> Result<(Interest, Ticket), LockMisuse> {
    match i {
        Interest::Writing => Ok((Interest::Writing, Ticket::Passive)),
        Interest::Idle => Ok((Interest::Reading(1), Ticket::ReadOuter)),
        Interest::Reading(n) => if n == usize::MAX {
            Err(LockMisuse::TooDeep)
        } else {
            Ok((Interest::Reading((n + 1) as usize), Ticket::ReadNested))
        },
    }
}

/// The interest after a write is acquired, and the ticket handed out.
pub open spec fn write_step(i: Interest) -> Result<(Interest, Ticket), LockMisuse> {
    match i {
        Interest::Writing => Ok((Interest::Writing, Ticket::Passive)),
        Interest::Idle => Ok((Interest::Writing, Ticket::WriteOuter)),
        Interest::Reading(_) => Err(LockMisuse::WriteWhileReading),
    }
}

/// The interest after the guard of ticket `t` is released.
pub open spec fn release_step(i: Interest, t: Ticket) -> Result<Interest, LockMisuse> {
    match t {
        Ticket::Passive => Ok(i),
        Ticket::ReadOuter => if i == Interest::Reading(1) {
            Ok(Interest::Idle)
        } else {
            Err(LockMisuse::OutOfOrder)
        },
        Ticket::ReadNested => match i {
            Interest::Reading(n) => if n > 1 {
                Ok(Interest::Reading((n - 1) as usize))
            } else {
                Err(LockMisuse::OutOfOrder)
            },
            _ => Err(LockMisuse::OutOfOrder),
        },
        Ticket::WriteOuter => if i == Interest::Writing {
            Ok(Interest::Idle)
        } else {
            Err(LockMisuse::OutOfOrder)
        },
    }
}

/// Whether acquiring or releasing with ticket `t` touches the shared primitive.
pub open spec fn touches_primitive(t: Ticket) -> bool {
    t == Ticket::ReadOuter || t == Ticket::WriteOuter
}

/// A read taken and then released restores the thread's interest, and touches
/// the shared primitive exactly when the thread held nothing before.
pub proof fn law_read_release_restores(i: Interest)
    requires
        interest_wf(i),
        read_step(i) is Ok,
    ensures
        release_step(read_step(i)->Ok_0.0, read_step(i)->Ok_0.1) == Ok::<Interest, LockMisuse>(i),
        touches_primitive(read_step(i)->Ok_0.1) == (i == Interest::Idle),
{
}

/// A write taken and then released restores the thread's interest, and
/// touches the shared primitive exactly when the thread held nothing before.
pub proof fn law_write_release_restores(i: Interest)
    requires
        interest_wf(i),
        write_step(i) is Ok,
    ensures
        release_step(write_step(i)->Ok_0.0, write_step(i)->Ok_0.1) == Ok::<Interest, LockMisuse>(
            i,
        ),
        touches_primitive(write_step(i)->Ok_0.1) == (i == Interest::Idle),
{
}

/// From a thread that holds nothing: read, read, release, release. The thread
/// ends holding nothing, and neither the second acquisition nor the first
/// release touches the shared primitive.
pub proof fn law_two_nested_reads()
    ensures
        read_step(Interest::Idle) == Ok::<(Interest, Ticket), LockMisuse>(
            (Interest::Reading(1), Ticket::ReadOuter),
        ),
        read_step(Interest::Reading(1)) == Ok::<(Interest, Ticket), LockMisuse>(
            (Interest::Reading(2), Ticket::ReadNested),
        ),
        release_step(Interest::Reading(2), Ticket::ReadNested) == Ok::<Interest, LockMisuse>(
            Interest::Reading(1),
        ),
        release_step(Interest::Reading(1), Ticket::ReadOuter) == Ok::<Interest, LockMisuse>(
            Interest::Idle,
        ),
        touches_primitive(Ticket::ReadOuter),
        !touches_primitive(Ticket::ReadNested),
{
}

/// One thread's record of what it holds.
pub struct LockCache {
    interest: Interest,
}

impl View for LockCache {
    type V = Interest;

    closed spec fn view(&self) -> Interest {
        self.interest
    }
}

impl LockCache {
    /// A thread that holds nothing.
    pub fn new() -> (r: LockCache)
        ensures
            r@ == Interest::Idle,
    {
        LockCache { interest: Interest::Idle }
    }

    /// The current interest.
    pub fn interest(&self) -> (r: Interest)
        ensures
            r == self@,
    {
        self.interest
    }

    /// Records a read. The ticket says whether the shared primitive must now
    /// be taken for reading (`ReadOuter`); on error nothing changes.
    pub fn acquire_read(&mut self) -> (r: Result<Ticket, LockMisuse>)
        requires
            interest_wf(old(self)@),
        ensures
            interest_wf(final(self)@),
            match read_step(old(self)@) {
                Ok((i, t)) => r == Ok::<Ticket, LockMisuse>(t) && final(self)@ == i,
                Err(e) => r == Err::<Ticket, LockMisuse>(e) && final(self)@ == old(self)@,
            },
    {
        match self.interest {
            Interest::Writing => Ok(Ticket::Passive),
            Interest::Idle => {
                self.interest = Interest::Reading(1);
                Ok(Ticket::ReadOuter)
            },
            Interest::Reading(n) => {
                if n == usize::MAX {
                    Err(LockMisuse::TooDeep)
                } else {
                    self.interest = Interest::Reading(n + 1);
                    Ok(Ticket::ReadNested)
                }
            },
        }
    }

    /// Records a write. The ticket says whether the shared primitive must now
    /// be taken for writing (`WriteOuter`); a thread that reads is refused.
    pub fn acquire_write(&mut self) -> (r: Result<Ticket, LockMisuse>)
        requires
            interest_wf(old(self)@),
        ensures
            interest_wf(final(self)@),
            match write_step(old(self)@) {
                Ok((i, t)) => r == Ok::<Ticket, LockMisuse>(t) && final(self)@ == i,
                Err(e) => r == Err::<Ticket, LockMisuse>(e) && final(self)@ == old(self)@,
            },
    {
        match self.interest {
            Interest::Writing => Ok(Ticket::Passive),
            Interest::Idle => {
                self.interest = Interest::Writing;
                Ok(Ticket::WriteOuter)
            },
            Interest::Reading(_) => Err(LockMisuse::WriteWhileReading),
        }
    }

    /// Records the release of the guard that `t` was handed out with. After
    /// `ReadOuter` or `WriteOuter` the caller gives the shared primitive back.
    pub fn release(&mut self, t: Ticket) -> (r: Result<(), LockMisuse>)
        requires
            interest_wf(old(self)@),
        ensures
            interest_wf(final(self)@),
            match release_step(old(self)@, t) {
                Ok(i) => r is Ok && final(self)@ == i,
                Err(e) => r == Err::<(), LockMisuse>(e) && final(self)@ == old(self)@,
            },
    {
        match t {
            Ticket::Passive => Ok(()),
            Ticket::ReadOuter => {
                if self.interest == Interest::Reading(1) {
                    self.interest = Interest::Idle;
                    Ok(())
                } else {
                    Err(LockMisuse::OutOfOrder)
                }
            },
            Ticket::ReadNested => {
                match self.interest {
                    Interest::Reading(n) => {
                        if n > 1 {
                            self.interest = Interest::Reading(n - 1);
                            Ok(())
                        } else {
                            Err(LockMisuse::OutOfOrder)
                        }
                    },
                    _ => Err(LockMisuse::OutOfOrder),
                }
            },
            Ticket::WriteOuter => {
                if self.interest == Interest::Writing {
                    self.interest = Interest::Idle;
                    Ok(())
                } else {
                    Err(LockMisuse::OutOfOrder)
                }
            },
        }
    }
}

/// Whether a ticket requires taking or giving back the shared primitive.
pub fn ticket_touches_primitive(t: Ticket) -> (r: bool)
    ensures
        r == touches_primitive(t),
{
    match t {
        Ticket::ReadOuter => true,
        Ticket::WriteOuter => true,
        _ => false,
    }
}

} // verus!
