//! Small wrapped scalar types that keep units apart.

use vstd::prelude::*;

verus! {

/// A byte count.
#[derive(Debug, Clone, Copy, PartialEq, Eq, Structural, PartialOrd, Ord, Hash)]
pub struct Bytes(pub u64);

/// A duration in whole seconds.
#[derive(Debug, Clone, Copy, PartialEq, Eq, Structural, PartialOrd, Ord, Hash)]
pub struct Secs(pub u64);

/// A duration in microseconds.
#[derive(Debug, Clone, Copy, PartialEq, Eq, Structural, PartialOrd, Ord, Hash)]
pub struct Microsecs(pub u128);

/// A duration in nanoseconds.
#[derive(Debug, Clone, Copy, PartialEq, Eq, Structural, PartialOrd, Ord, Hash)]
pub struct Nanosecs(pub u128);

impl Bytes {
    pub fn new(v: u64) -> (r: Bytes)
        ensures
            r.0 == v,
    {
        Bytes(v)
    }

    pub fn into_inner(self) -> (r: u64)
        ensures
            r == self.0,
    {
        self.0
    }
}

impl Secs {
    pub fn new(v: u64) -> (r: Secs)
        ensures
            r.0 == v,
    {
        Secs(v)
    }

    pub fn into_inner(self) -> (r: u64)
        ensures
            r == self.0,
    {
        self.0
    }

    /// The same span in nanoseconds.
    pub fn as_nanos(self) -> (r: Nanosecs)
        ensures
            r.0 == self.0 * 1_000_000_000,
    {
        Nanosecs(self.0 as u128 * 1_000_000_000)
    }
}

impl Microsecs {
    pub fn new(v: u128) -> (r: Microsecs)
        ensures
            r.0 == v,
    {
        Microsecs(v)
    }

    pub fn into_inner(self) -> (r: u128)
        ensures
            r == self.0,
    {
        self.0
    }
}

impl Nanosecs {
    pub fn new(v: u128) -> (r: Nanosecs)
        ensures
            r.0 == v,
    {
        Nanosecs(v)
    }

    pub fn into_inner(self) -> (r: u128)
        ensures
            r == self.0,
    {
        self.0
    }
}

} // verus!
