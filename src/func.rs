//! An opaque function pointer: "some `fn`", whatever its signature.
//!
//! Some platforms keep code and data in separate address spaces, so a function pointer is
//! not a data pointer and should not be turned into one. This box holds the code address of
//! a function without saying what its signature is.
use vstd::layout::{align_of, size_of};
use vstd::prelude::*;

verus! {

/// The `void*` of function pointers: the code address of some function.
#[derive(Clone, Copy, PartialEq, Eq, Structural, PartialOrd, Ord, Hash, Debug)]
pub struct OpaqueFnPtr(usize);

impl View for OpaqueFnPtr {
    type V = usize;

    closed spec fn view(&self) -> usize {
        self.0
    }
}

/// Two boxes are equal exactly when they hold the same code address.
pub proof fn lemma_eq_iff_addr(a: OpaqueFnPtr, b: OpaqueFnPtr)
    ensures
        (a == b) <==> (a@ == b@),
{
}

/// Whether a value of type `T` has the size and alignment of the slot a function pointer
/// occupies, so that its bits can be moved in and out of an `OpaqueFnPtr` unchanged.
pub open spec fn fits_fn_slot<T>() -> bool {
    size_of::<T>() == size_of::<usize>() && align_of::<T>() == align_of::<usize>()
}

impl OpaqueFnPtr {
    /// The box holding the code address `addr`.
    pub fn from_addr(addr: usize) -> (r: OpaqueFnPtr)
        ensures
            r@ == addr,
    {
        OpaqueFnPtr(addr)
    }

    /// The code address held.
    ///
    /// It lies in the address space of code: comparing it with a data address means nothing
    /// on platforms that keep the two apart.
    pub fn addr(self) -> (r: usize)
        ensures
            r == self@,
    {
        self.0
    }

    /// Whether a value of type `T` can be stored in and taken out of the box bit for bit: it
    /// must have exactly the size and alignment of the slot.
    pub fn fits<T>() -> (r: bool)
        ensures
            r == fits_fn_slot::<T>(),
    {
        core::mem::size_of::<T>() == core::mem::size_of::<usize>()
            && core::mem::align_of::<T>() == core::mem::align_of::<usize>()
    }
}

} // verus!
