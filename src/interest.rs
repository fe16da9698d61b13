use vstd::prelude::*;

verus! {

/// The readiness conditions a suspended computation waits on.
#[derive(Clone, Copy, Debug, PartialEq, Eq, Structural)]
pub struct Interest {
    pub readable: bool,
    pub writable: bool,
}

impl Interest {
    /// Waiting until the resource can be read.
    pub fn readable() -> (r: Interest)
        ensures
            r.readable,
            !r.writable,
    {
        Interest { readable: true, writable: false }
    }

    /// Waiting until the resource can be written.
    pub fn writable() -> (r: Interest)
        ensures
            !r.readable,
            r.writable,
    {
        Interest { readable: false, writable: true }
    }

    /// Waiting until the resource can be read or written.
    pub fn both() -> (r: Interest)
        ensures
            r.readable,
            r.writable,
    {
        Interest { readable: true, writable: true }
    }

    pub fn is_readable(&self) -> (r: bool)
        ensures
            r == self.readable,
    {
        self.readable
    }

    pub fn is_writable(&self) -> (r: bool)
        ensures
            r == self.writable,
    {
        self.writable
    }
}

} // verus!
