//! The ownership model for handles crossing the C boundary.
//!
//! Every handle obtained from the boundary service arrives under one of two
//! fixed, documented conventions. Under the create rule the caller owns the
//! handle and must release it exactly once; under the get rule the handle is
//! borrowed and must never be released by the caller. The convention of a
//! given foreign function is known at the call site: the layer never
//! inspects a handle to decide which rule applies.
//!
//! A handle is modeled here by its raw address, a plain machine word. The
//! real object behind it is managed entirely by the boundary service; this
//! layer only accounts for who holds the obligation to release it.

use vstd::prelude::*;

verus! {

/// A handle held under the create rule: the holder owns one reference and
/// must release it exactly once.
///
/// The type has no `Clone` and no `Copy`, so the one release obligation
/// cannot be duplicated: the only way to give the obligation up is
/// [`OwnedRef::into_raw`], which consumes the value. A well-formed owned
/// handle is never null, because a null raw handle is never adopted.
#[derive(Debug)]
pub struct OwnedRef {
    /// The raw address of the boundary object.
    pub addr: usize,
}

impl OwnedRef {
    /// Well-formedness: an owned handle is never null.
    pub open spec fn wf(self) -> bool {
        self.addr != 0
    }

    /// Adopts a raw handle known to follow the create rule: the result now
    /// carries the obligation to release it exactly once. A null handle is
    /// never adopted.
    pub fn adopt(raw: usize) -> (r: OwnedRef)
        requires
            raw != 0,
        ensures
            r.addr == raw,
            r.wf(),
    {
        OwnedRef { addr: raw }
    }

    /// Gives the release obligation up to the caller, returning the raw
    /// address unchanged. Consuming `self` is what makes a second release
    /// of the same obligation unrepresentable.
    pub fn into_raw(self) -> (r: usize)
        ensures
            r == self.addr,
    {
        self.addr
    }

    /// Views the handle under the get rule for the duration of a call: the
    /// borrow carries no release obligation and the owner keeps its own.
    pub fn as_borrowed(&self) -> (r: BorrowedRef)
        ensures
            r.addr == self.addr,
    {
        BorrowedRef { addr: self.addr }
    }
}

/// A handle held under the get rule: a view with no release obligation,
/// valid only as long as whatever produced it.
#[derive(Clone, Copy, Debug)]
pub struct BorrowedRef {
    /// The raw address of the boundary object.
    pub addr: usize,
}

impl BorrowedRef {
    /// Well-formedness: a borrowed handle is never null.
    pub open spec fn wf(self) -> bool {
        self.addr != 0
    }

    /// Takes a raw handle known to follow the get rule. A null handle is
    /// never borrowed.
    pub fn borrow(raw: usize) -> (r: BorrowedRef)
        requires
            raw != 0,
        ensures
            r.addr == raw,
            r.wf(),
    {
        BorrowedRef { addr: raw }
    }
}

} // verus!
