//! Pointer/integer conversions that keep track of provenance.
//!
//! A pointer is an address together with a provenance: the permission to access some
//! allocation. The functions here convert between pointers and plain addresses without
//! losing sight of which of the two is meant.
use vstd::prelude::*;

mod private;
pub mod func;
pub mod intptr;
pub mod ptr;

pub use crate::func::OpaqueFnPtr;
pub use crate::intptr::{iptr, uptr};
pub use crate::ptr::{null, null_mut, ConstPtr, MutPtr, Provenance, PtrView};

verus! {

/// A pointer with address `addr` and no provenance.
///
/// It compares equal to any pointer with the same address, and may be held and compared,
/// but never used for an access.
pub fn invalid<T>(addr: usize) -> (r: ConstPtr<T>)
    ensures
        r@ == PtrView::invalid(addr),
{
    ConstPtr::from_parts(addr, Provenance::Empty)
}

/// A mutable pointer with address `addr` and no provenance.
pub fn invalid_mut<T>(addr: usize) -> (r: MutPtr<T>)
    ensures
        r@ == PtrView::invalid(addr),
{
    MutPtr::from_parts(addr, Provenance::Empty)
}

/// A pointer with address `addr` whose provenance is picked, when it is used, among the
/// exposed provenances: one that makes the access defined, where there is one.
pub fn from_exposed_addr<T>(addr: usize) -> (r: ConstPtr<T>)
    ensures
        r@ == PtrView::exposed(addr),
{
    ConstPtr::from_parts(addr, Provenance::Exposed)
}

/// A mutable pointer with address `addr` whose provenance is picked among the exposed ones.
pub fn from_exposed_addr_mut<T>(addr: usize) -> (r: MutPtr<T>)
    ensures
        r@ == PtrView::exposed(addr),
{
    MutPtr::from_parts(addr, Provenance::Exposed)
}

/// The address of a pointer built from an address without provenance is that address.
pub proof fn invalid_keeps_addr(a: usize)
    ensures
        PtrView::invalid(a).addr == a,
        PtrView::invalid(a).prov == Provenance::Empty,
{
}

/// Moving a pointer to address `a` gives a pointer at `a` with the original provenance.
pub proof fn with_addr_sets_addr(p: PtrView, a: usize)
    ensures
        p.with_addr(a).addr == a,
        p.with_addr(a).prov == p.prov,
{
}

/// For a function `f` that gives one result on each address, what `map_addr` returns is what
/// `with_addr` returns on the address that `f` makes of the pointer's address.
pub proof fn map_addr_is_with_addr<F: FnOnce(usize) -> usize>(p: PtrView, f: F, r: PtrView, y: usize)
    requires
        forall|x: usize, y1: usize, y2: usize|
            f.ensures((x,), y1) && f.ensures((x,), y2) ==> y1 == y2,
        f.ensures((p.addr,), y),
        f.ensures((p.addr,), r.addr),
        r == p.with_addr(r.addr),
    ensures
        r == p.with_addr(y),
{
}

/// Exposing a pointer's address and rebuilding a pointer from that address gives a pointer
/// at the same address that may access every allocation the original could.
pub proof fn exposed_round_trip(p: PtrView, exposed: Set<u64>, alloc: u64)
    requires
        p.may_access(alloc, exposed),
    ensures
        PtrView::exposed(p.addr).addr == p.addr,
        PtrView::exposed(p.addr).may_access(alloc, exposed.union(p.exposes())),
{
}

/// Address operations that keep provenance apart from the address.
pub trait Strict: private::Sealed + Sized {
    /// The type pointed to.
    type Pointee;

    /// The abstract value of the pointer.
    spec fn model(&self) -> PtrView;

    /// The address of the pointer, without any promise that a pointer can be rebuilt from it.
    fn addr(self) -> (r: usize)
        ensures
            r == self.model().addr,
    ;

    /// The address of the pointer, making its provenance available to `from_exposed_addr`.
    ///
    /// The set of exposed provenances exists only in the memory model: what this call adds
    /// to it is `self.model().exposes()`.
    fn expose_addr(self) -> (r: usize)
        ensures
            r == self.model().addr,
    ;

    /// A pointer with the provenance of `self` and the address `addr`.
    fn with_addr(self, addr: usize) -> (r: Self)
        ensures
            r.model() == self.model().with_addr(addr),
    ;

    /// A pointer with the provenance of `self` and the address that `f` makes of its address.
    fn map_addr<F: FnOnce(usize) -> usize>(self, f: F) -> (r: Self)
        requires
            f.requires((self.model().addr,)),
        ensures
            f.ensures((self.model().addr,), r.model().addr),
            r.model() == self.model().with_addr(r.model().addr),
    ;
}

} // verus!
