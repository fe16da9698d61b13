use crate::interest::Interest;
use crate::outcome::WaitDescriptor;
use vstd::prelude::*;

verus! {

/// The two operations of the I/O capability.
#[derive(Clone, Copy, Debug, PartialEq, Eq, Structural)]
pub enum Op {
    Read,
    Write,
}

/// The readiness that lets a blocked operation make progress.
pub open spec fn interest_of(op: Op) -> Interest {
    match op {
        Op::Read => Interest { readable: true, writable: false },
        Op::Write => Interest { readable: false, writable: true },
    }
}

pub fn interest_for(op: Op) -> (r: Interest)
    ensures
        r == interest_of(op),
{
    match op {
        Op::Read => Interest::readable(),
        Op::Write => Interest::writable(),
    }
}

/// What a syscall's return value means to a caller that blocks: a negative
/// value is a failure, described by `err`; otherwise it is the byte count.
pub open spec fn direct_result<E>(res: isize, err: E) -> Result<usize, E> {
    if res < 0 {
        Err(err)
    } else {
        Ok(res as usize)
    }
}

/// What the suspension-aware capability does after one syscall attempt.
pub enum Step<E> {
    /// Hand this result to the user function.
    Finish(Result<usize, E>),
    /// Suspend on this wait, then retry the same syscall once resumed.
    Suspend(WaitDescriptor),
}

/// The suspension-aware reading of a syscall's return value: a would-block
/// failure becomes a suspension on `fd` for the operation's readiness; every
/// other result is what a blocking caller would see.
pub open spec fn aware_result<E>(fd: i32, op: Op, res: isize, err: E, would_block: bool) -> Step<E> {
    if res < 0 && would_block {
        Step::Suspend(WaitDescriptor { fd, interest: interest_of(op) })
    } else {
        Step::Finish(direct_result(res, err))
    }
}

/// The direct, blocking implementation of the I/O capability.
#[derive(Clone, Copy, Debug, PartialEq, Eq, Structural)]
pub struct Native;

impl Native {
    /// Turns the return value of one read or write syscall into its result.
    /// `err` describes the failure a negative value reports.
    pub fn settle<E>(res: isize, err: E) -> (r: Result<usize, E>)
        ensures
            r == direct_result(res, err),
    {
        if res < 0 {
            Err(err)
        } else {
            Ok(res as usize)
        }
    }
}

/// Decides what follows one syscall attempt of the suspension-aware
/// capability on `fd`. `would_block` tells whether the failure `err` of a
/// negative `res` only means that the call cannot complete right now.
pub fn aware_step<E>(fd: i32, op: Op, res: isize, err: E, would_block: bool) -> (r: Step<E>)
    ensures
        r == aware_result(fd, op, res, err, would_block),
{
    if res < 0 && would_block {
        Step::Suspend(WaitDescriptor::new(fd, interest_for(op)))
    } else {
        Step::Finish(Native::settle(res, err))
    }
}

/// A suspension happens only on a would-block failure; in every other case
/// the suspension-aware capability gives the user function exactly what the
/// direct capability gives.
pub proof fn lemma_suspends_only_on_would_block<E>(
    fd: i32,
    op: Op,
    res: isize,
    err: E,
    would_block: bool,
)
    ensures
        aware_result(fd, op, res, err, would_block) is Suspend <==> (res < 0 && would_block),
        !(res < 0 && would_block) ==> aware_result(fd, op, res, err, would_block) == Step::<E>::Finish(
            direct_result(res, err),
        ),
{
}

/// A write that would block suspends on its own resource, waiting until it
/// is writable (a read, until it is readable); the retry after resumption
/// that transfers `n` bytes reports exactly `n` to the user function.
pub proof fn lemma_blocked_operation_resumes<E>(fd: i32, op: Op, failed: isize, n: isize, err: E)
    requires
        failed < 0,
        n >= 0,
    ensures
        aware_result(fd, op, failed, err, true) == Step::<E>::Suspend(
            WaitDescriptor { fd, interest: interest_of(op) },
        ),
        op == Op::Write ==> interest_of(op) == (Interest { readable: false, writable: true }),
        op == Op::Read ==> interest_of(op) == (Interest { readable: true, writable: false }),
        aware_result(fd, op, n, err, true) == Step::<E>::Finish(Ok(n as usize)),
        aware_result(fd, op, n, err, false) == Step::<E>::Finish(Ok(n as usize)),
{
}

} // verus!
