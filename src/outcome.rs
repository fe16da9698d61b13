use crate::interest::Interest;
use vstd::prelude::*;

verus! {

/// A resource handle paired with the readiness it is awaited for.
#[derive(Clone, Copy, Debug, PartialEq, Eq, Structural)]
pub struct WaitDescriptor {
    pub fd: i32,
    pub interest: Interest,
}

impl WaitDescriptor {
    pub fn new(fd: i32, interest: Interest) -> (r: WaitDescriptor)
        ensures
            r.fd == fd,
            r.interest == interest,
    {
        WaitDescriptor { fd, interest }
    }
}

/// What crosses the execution-context boundary: either the final value of
/// the user function, or the wait that suspended it. Never both.
pub enum SuspensionOutcome<T> {
    Done(T),
    Blocked(WaitDescriptor),
}

/// A one-place slot that carries an outcome from one side of the boundary to
/// the other. A value put in is taken out exactly once.
pub struct Handoff<T> {
    slot: Option<T>,
}

impl<T> View for Handoff<T> {
    type V = Option<T>;

    closed spec fn view(&self) -> Option<T> {
        self.slot
    }
}

impl<T> Handoff<T> {
    /// An empty slot.
    pub fn new() -> (r: Handoff<T>)
        ensures
            r@ is None,
    {
        Handoff { slot: None }
    }

    pub fn is_empty(&self) -> (r: bool)
        ensures
            r == self@ is None,
    {
        self.slot.is_none()
    }

    /// Puts a value in an empty slot.
    pub fn deposit(&mut self, v: T)
        requires
            old(self)@ is None,
        ensures
            final(self)@ == Some(v),
    {
        self.slot = Some(v);
    }

    /// Takes out what the slot holds and leaves it empty.
    pub fn take(&mut self) -> (r: Option<T>)
        ensures
            r == old(self)@,
            final(self)@ is None,
    {
        let mut r: Option<T> = None;
        std::mem::swap(&mut r, &mut self.slot);
        r
    }
}

/// An outcome passed through a slot is observed exactly once: a take after a
/// deposit yields the deposited value, and a take from the slot it left
/// empty yields nothing.
pub proof fn lemma_consumed_once<T>(
    v: T,
    filled: Handoff<T>,
    first: Option<T>,
    drained: Handoff<T>,
    second: Option<T>,
)
    requires
        filled@ == Some(v),
        first == filled@,
        drained@ is None,
        second == drained@,
    ensures
        first == Some(v),
        second is None,
{
}

} // verus!
