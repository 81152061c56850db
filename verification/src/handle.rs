//! Descriptors as plain values, with who closes them.

use vstd::prelude::*;

verus! {

/// A descriptor and whether its holder closes it on release.
///
/// An owned handle is closed exactly once, by whoever holds it last; a
/// borrowed one is never closed by its holder.
#[derive(Clone, Copy, Debug, PartialEq, Eq)]
pub struct Handle {
    pub fd: i32,
    pub owned: bool,
}

impl Handle {
    /// A handle that its holder closes on release.
    pub fn owned(fd: i32) -> (h: Handle)
        ensures
            h == (Handle { fd, owned: true }),
    {
        Handle { fd, owned: true }
    }

    /// A handle that its holder never closes.
    pub fn borrowed(fd: i32) -> (h: Handle)
        ensures
            h == (Handle { fd, owned: false }),
    {
        Handle { fd, owned: false }
    }

    /// A second handle on the same descriptor, which never closes it.
    pub fn lend(&self) -> (h: Handle)
        ensures
            h == (Handle { fd: self.fd, owned: false }),
    {
        Handle { fd: self.fd, owned: false }
    }
}

/// The two ends of a pipe: bytes written to `writer` come out of `reader`
/// in the order in which they were written.
#[derive(Clone, Copy, Debug, PartialEq, Eq)]
pub struct Pipe {
    pub reader: i32,
    pub writer: i32,
}

/// A freshly allocated pseudo-terminal: both ends and the slave's device path.
#[derive(Debug, PartialEq, Eq)]
pub struct PtyPair {
    pub master: i32,
    pub slave: i32,
    pub path: String,
}

} // verus!
