use crate::outcome::{SuspensionOutcome, WaitDescriptor};
use std::marker::PhantomData;
use vstd::prelude::*;

verus! {

/// An independently resumable line of execution running a user function.
/// Each call runs it from where it last stopped until it next hands an
/// outcome across the boundary: the function's value, or the wait that
/// suspended it.
pub trait ExecutionContext<T> {
    fn next_outcome(&mut self) -> SuspensionOutcome<T>;
}

/// Where a resumable computation stands between two calls.
#[derive(Clone, Copy, Debug, PartialEq, Eq, Structural)]
pub enum Phase {
    /// Suspended, waiting on this descriptor.
    Blocked(WaitDescriptor),
    /// Finished; its value has been handed to the caller.
    Completed,
}

/// The error of resuming a computation that has already completed.
#[derive(Clone, Copy, Debug, PartialEq, Eq, Structural)]
pub struct ProtocolMisuse;

/// A computation suspended on a would-block condition, which owns its
/// execution context and knows the one wait it is suspended on.
///
/// Dropping it before completion drops the context with it; the user
/// function is abandoned where it stopped, without notice.
pub struct ResumableFunction<T, C: ExecutionContext<T>> {
    context: C,
    phase: Phase,
    marker: PhantomData<T>,
}

impl<T, C: ExecutionContext<T>> View for ResumableFunction<T, C> {
    type V = Phase;

    closed spec fn view(&self) -> Phase {
        self.phase
    }
}

impl<T, C: ExecutionContext<T>> ResumableFunction<T, C> {
    /// Acts on the first outcome of a freshly started context: a function
    /// that finished without blocking gives its value and keeps nothing
    /// alive; one that blocked gives a computation waiting on that wait.
    pub fn start(context: C, first: SuspensionOutcome<T>) -> (r: Result<T, Self>)
        ensures
            match first {
                SuspensionOutcome::Done(t) => r == Ok::<T, Self>(t),
                SuspensionOutcome::Blocked(wd) => r is Err && r->Err_0@ == Phase::Blocked(wd),
            },
    {
        match first {
            SuspensionOutcome::Done(t) => Ok(t),
            SuspensionOutcome::Blocked(wd) => Err(
                ResumableFunction { context, phase: Phase::Blocked(wd), marker: PhantomData },
            ),
        }
    }

    /// Runs a freshly started context until it first completes or blocks.
    /// Completion gives the value directly; blocking gives the computation.
    pub fn new(context: C) -> (r: Result<T, Self>)
        ensures
            r is Err ==> r->Err_0@ is Blocked,
    {
        let mut context = context;
        let first = context.next_outcome();
        Self::start(context, first)
    }

    /// Takes in the outcome that a resumption produced. A new wait replaces
    /// the one before; a value completes the computation and is handed out.
    pub fn advance(&mut self, outcome: SuspensionOutcome<T>) -> (r: Option<T>)
        requires
            old(self)@ is Blocked,
        ensures
            match outcome {
                SuspensionOutcome::Done(t) => r == Some(t) && final(self)@ == Phase::Completed,
                SuspensionOutcome::Blocked(wd) => r is None && final(self)@ == Phase::Blocked(wd),
            },
    {
        match outcome {
            SuspensionOutcome::Done(t) => {
                self.phase = Phase::Completed;
                Some(t)
            },
            SuspensionOutcome::Blocked(wd) => {
                self.phase = Phase::Blocked(wd);
                None
            },
        }
    }

    /// Resumes the computation where it suspended. Gives its value once it
    /// completes, and `None` while it is blocked again, on a new wait.
    /// Resuming a completed computation is refused and changes nothing.
    pub fn resume(&mut self) -> (r: Result<Option<T>, ProtocolMisuse>)
        ensures
            old(self)@ is Completed ==> r == Err::<Option<T>, ProtocolMisuse>(ProtocolMisuse)
                && *final(self) == *old(self),
            old(self)@ is Blocked ==> r is Ok,
            r matches Ok(Some(_)) ==> final(self)@ is Completed,
            r matches Ok(None) ==> final(self)@ is Blocked,
    {
        if self.is_completed() {
            return Err(ProtocolMisuse);
        }
        let outcome = self.context.next_outcome();
        Ok(self.advance(outcome))
    }

    pub fn is_completed(&self) -> (r: bool)
        ensures
            r == self@ is Completed,
    {
        match self.phase {
            Phase::Completed => true,
            Phase::Blocked(_) => false,
        }
    }

    /// The one wait the computation is suspended on, if it is suspended.
    pub fn wait_descriptor(&self) -> (r: Option<WaitDescriptor>)
        ensures
            match self@ {
                Phase::Blocked(wd) => r == Some(wd),
                Phase::Completed => r is None,
            },
    {
        match self.phase {
            Phase::Blocked(wd) => Some(wd),
            Phase::Completed => None,
        }
    }
}

} // verus!
