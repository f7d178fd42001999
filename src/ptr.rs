//! A model of raw pointers: an address together with a provenance.
use crate::private::Sealed;
use crate::Strict;
use core::marker::PhantomData;
use vstd::arithmetic::div_mod::{
    lemma_add_mod_noop, lemma_mod_bound, lemma_mod_add_multiples_vanish,
    lemma_mod_sub_multiples_vanish, lemma_mod_twice, lemma_small_mod, lemma_sub_mod_noop,
};
use vstd::layout::size_of;
use vstd::prelude::*;
use vstd::wrapping::usize_specs;

verus! {

/// What a pointer is permitted to access, apart from its numeric address.
#[derive(Clone, Copy, Debug, PartialEq, Eq, Structural)]
pub enum Provenance {
    /// No permission at all: the pointer may be held and compared, never used for access.
    Empty,
    /// Permission to access the allocation with this identifier.
    Alloc(u64),
    /// Permission chosen, when the pointer is used, among the exposed provenances.
    Exposed,
}

/// The abstract value of a pointer of either mutability.
#[derive(Clone, Copy, Debug, PartialEq, Eq, Structural)]
pub struct PtrView {
    /// The numeric address.
    pub addr: usize,
    /// What the pointer may access.
    pub prov: Provenance,
}

impl PtrView {
    /// The same provenance at another address.
    pub open spec fn with_addr(self, addr: usize) -> PtrView {
        PtrView { addr, prov: self.prov }
    }

    /// A pointer holding `addr` and no provenance.
    pub open spec fn invalid(addr: usize) -> PtrView {
        PtrView { addr, prov: Provenance::Empty }
    }

    /// A pointer holding `addr` whose provenance is picked among the exposed ones.
    pub open spec fn exposed(addr: usize) -> PtrView {
        PtrView { addr, prov: Provenance::Exposed }
    }

    /// The provenances that exposing this pointer makes available.
    pub open spec fn exposes(self) -> Set<u64> {
        match self.prov {
            Provenance::Alloc(id) => set![id],
            _ => Set::empty(),
        }
    }

    /// Whether an access through this pointer may reach allocation `alloc`, given the set of
    /// provenances exposed so far.
    pub open spec fn may_access(self, alloc: u64, exposed: Set<u64>) -> bool {
        match self.prov {
            Provenance::Empty => false,
            Provenance::Alloc(id) => id == alloc,
            Provenance::Exposed => exposed.contains(alloc),
        }
    }
}

/// The number of distinct addresses.
pub open spec fn addr_modulus() -> int {
    usize::MAX as int + 1
}

/// The address reached from `x` when arithmetic wraps around the address space.
pub open spec fn wrap_addr(x: int) -> usize {
    (x % addr_modulus()) as usize
}

/// `wrap_addr(x)` is `x` reduced into the address range.
pub proof fn lemma_wrap_addr(x: int)
    ensures
        wrap_addr(x) as int == x % addr_modulus(),
{
    lemma_mod_bound(x, addr_modulus());
}

/// An integer already in the address range wraps to itself.
proof fn lemma_wrap_small(x: int)
    requires
        0 <= x < addr_modulus(),
    ensures
        wrap_addr(x) as int == x,
{
    lemma_wrap_addr(x);
    lemma_small_mod(x as nat, addr_modulus() as nat);
}

/// Wrapping once or twice lands on the same address.
proof fn lemma_wrap_shift(x: int)
    ensures
        wrap_addr(x + addr_modulus()) == wrap_addr(x),
        wrap_addr(x - addr_modulus()) == wrap_addr(x),
{
    lemma_mod_add_multiples_vanish(x, addr_modulus());
    lemma_mod_sub_multiples_vanish(x, addr_modulus());
    lemma_wrap_addr(x);
    lemma_wrap_addr(x + addr_modulus());
    lemma_wrap_addr(x - addr_modulus());
}

/// Reducing one operand of a sum or difference first does not change where it wraps to.
proof fn lemma_wrap_inner(a: int, y: int)
    ensures
        wrap_addr(a + wrap_addr(y)) == wrap_addr(a + y),
        wrap_addr(a - wrap_addr(y)) == wrap_addr(a - y),
{
    let m = addr_modulus();
    lemma_wrap_addr(y);
    lemma_wrap_addr(a + y);
    lemma_wrap_addr(a - y);
    lemma_wrap_addr(a + wrap_addr(y));
    lemma_wrap_addr(a - wrap_addr(y));
    lemma_add_mod_noop(a, y, m);
    lemma_add_mod_noop(a, y % m, m);
    lemma_sub_mod_noop(a, y, m);
    lemma_sub_mod_noop(a, y % m, m);
    lemma_mod_twice(y, m);
}

/// `usize::wrapping_add` is addition around the address range.
pub proof fn lemma_wrapping_add(a: usize, b: usize)
    ensures
        usize_specs::wrapping_add(a, b) == wrap_addr(a + b),
{
    if a + b > usize::MAX {
        lemma_wrap_small(a + b - addr_modulus());
        lemma_wrap_shift(a + b);
    } else {
        lemma_wrap_small(a + b);
    }
}

/// `usize::wrapping_sub` is subtraction around the address range.
proof fn lemma_wrapping_sub(a: usize, b: usize)
    ensures
        usize_specs::wrapping_sub(a, b) == wrap_addr(a - b),
{
    if a - b < 0 {
        lemma_wrap_small(a - b + addr_modulus());
        lemma_wrap_shift(a - b);
    } else {
        lemma_wrap_small(a - b);
    }
}

/// `usize::wrapping_add_signed` is signed addition around the address range.
proof fn lemma_wrapping_add_signed(a: usize, b: isize)
    ensures
        usize_specs::wrapping_add_signed(a, b) == wrap_addr(a + b),
{
    if a + b > usize::MAX {
        lemma_wrap_small(a + b - addr_modulus());
        lemma_wrap_shift(a + b);
    } else if a + b < 0 {
        lemma_wrap_small(a + b + addr_modulus());
        lemma_wrap_shift(a + b);
    } else {
        lemma_wrap_small(a + b);
    }
}

/// `usize::wrapping_mul` is multiplication around the address range.
proof fn lemma_wrapping_mul(a: usize, b: usize)
    ensures
        usize_specs::wrapping_mul(a, b) == wrap_addr(a * b),
{
    lemma_wrap_addr(a * b);
}

/// A model of `*const T`.
#[derive(Debug)]
pub struct ConstPtr<T> {
    addr: usize,
    prov: Provenance,
    marker: PhantomData<T>,
}

/// A model of `*mut T`.
#[derive(Debug)]
pub struct MutPtr<T> {
    addr: usize,
    prov: Provenance,
    marker: PhantomData<T>,
}

impl<T> View for ConstPtr<T> {
    type V = PtrView;

    closed spec fn view(&self) -> PtrView {
        PtrView { addr: self.addr, prov: self.prov }
    }
}

impl<T> Clone for ConstPtr<T> {
    fn clone(&self) -> (r: Self)
        ensures
            r@ == self@,
    {
        ConstPtr { addr: self.addr, prov: self.prov, marker: PhantomData }
    }
}

impl<T> Copy for ConstPtr<T> {}

impl<T> PartialEq for ConstPtr<T> {
    fn eq(&self, other: &Self) -> bool {
        self.addr == other.addr
    }
}

impl<T> vstd::std_specs::cmp::PartialEqSpecImpl for ConstPtr<T> {
    open spec fn obeys_eq_spec() -> bool {
        true
    }

    /// Pointers compare by address alone; provenance plays no part.
    open spec fn eq_spec(&self, other: &Self) -> bool {
        self@.addr == other@.addr
    }
}

impl<T> Eq for ConstPtr<T> {}

impl<T> Sealed for ConstPtr<T> {}

impl<T> Strict for ConstPtr<T> {
    type Pointee = T;

    open spec fn model(&self) -> PtrView {
        self@
    }

    fn addr(self) -> usize {
        self.addr
    }

    fn expose_addr(self) -> usize {
        self.addr
    }

    fn with_addr(self, addr: usize) -> Self {
        proof {
            lemma_wrapping_sub(addr, self.addr);
            lemma_wrap_inner(self.addr as int, addr - self.addr);
            lemma_wrap_small(addr as int);
        }
        self.wrapping_byte_add(addr.wrapping_sub(self.addr))
    }

    fn map_addr<F: FnOnce(usize) -> usize>(self, f: F) -> Self {
        let addr = f(self.addr);
        self.with_addr(addr)
    }
}

impl<T> ConstPtr<T> {
    /// A pointer with the given address and provenance.
    pub fn from_parts(addr: usize, prov: Provenance) -> (r: Self)
        ensures
            r@ == (PtrView { addr, prov }),
    {
        ConstPtr { addr, prov, marker: PhantomData }
    }

    /// The provenance this pointer carries.
    pub fn provenance(&self) -> (r: Provenance)
        ensures
            r == self@.prov,
    {
        self.prov
    }

    /// Whether the address is zero.
    pub fn is_null(&self) -> (r: bool)
        ensures
            r == (self@.addr == 0),
    {
        self.addr == 0
    }

    /// The same pointer, seen as pointing to a `U`.
    pub fn cast<U>(self) -> (r: ConstPtr<U>)
        ensures
            r@ == self@,
    {
        ConstPtr { addr: self.addr, prov: self.prov, marker: PhantomData }
    }

    /// The same pointer with the other mutability.
    pub fn cast_mut(self) -> (r: MutPtr<T>)
        ensures
            r@ == self@,
    {
        MutPtr::from_parts(self.addr, self.prov)
    }

    /// Moves the address `count` bytes forward, wrapping around the address space.
    pub fn wrapping_byte_add(self, count: usize) -> (r: Self)
        ensures
            r@ == self@.with_addr(wrap_addr(self@.addr + count)),
    {
        proof {
            lemma_wrapping_add(self.addr, count);
        }
        ConstPtr { addr: self.addr.wrapping_add(count), prov: self.prov, marker: PhantomData }
    }

    /// Moves the address by `count` bytes, wrapping around the address space.
    pub fn wrapping_byte_offset(self, count: isize) -> (r: Self)
        ensures
            r@ == self@.with_addr(wrap_addr(self@.addr + count)),
    {
        proof {
            lemma_wrapping_add_signed(self.addr, count);
        }
        ConstPtr { addr: self.addr.wrapping_add_signed(count), prov: self.prov, marker: PhantomData }
    }

    /// Moves the address by `count` values of `T`, wrapping around the address space.
    pub fn wrapping_offset(self, count: isize) -> (r: Self)
        ensures
            r@ == self@.with_addr(wrap_addr(self@.addr + count * size_of::<T>())),
    {
        let size = core::mem::size_of::<T>();
        if count >= 0 {
            let c = count as usize;
            proof {
                lemma_wrapping_mul(c, size);
                lemma_wrap_inner(self.addr as int, c * size);
            }
            self.wrapping_byte_add(c.wrapping_mul(size))
        } else {
            let c = (-(count + 1)) as usize + 1;
            let back = c.wrapping_mul(size);
            proof {
                lemma_wrapping_mul(c, size);
                lemma_wrapping_sub(self.addr, back);
                lemma_wrap_inner(self.addr as int, c * size);
                assert(self.addr - c * size == self.addr + count * size) by (nonlinear_arith)
                    requires
                        c == -count,
                ;
            }
            ConstPtr { addr: self.addr.wrapping_sub(back), prov: self.prov, marker: PhantomData }
        }
    }
}


impl<T> View for MutPtr<T> {
    type V = PtrView;

    closed spec fn view(&self) -> PtrView {
        PtrView { addr: self.addr, prov: self.prov }
    }
}

impl<T> Clone for MutPtr<T> {
    fn clone(&self) -> (r: Self)
        ensures
            r@ == self@,
    {
        MutPtr { addr: self.addr, prov: self.prov, marker: PhantomData }
    }
}

impl<T> Copy for MutPtr<T> {}

impl<T> PartialEq for MutPtr<T> {
    fn eq(&self, other: &Self) -> bool {
        self.addr == other.addr
    }
}

impl<T> vstd::std_specs::cmp::PartialEqSpecImpl for MutPtr<T> {
    open spec fn obeys_eq_spec() -> bool {
        true
    }

    /// Pointers compare by address alone; provenance plays no part.
    open spec fn eq_spec(&self, other: &Self) -> bool {
        self@.addr == other@.addr
    }
}

impl<T> Eq for MutPtr<T> {}

impl<T> Sealed for MutPtr<T> {}

impl<T> Strict for MutPtr<T> {
    type Pointee = T;

    open spec fn model(&self) -> PtrView {
        self@
    }

    fn addr(self) -> usize {
        self.addr
    }

    fn expose_addr(self) -> usize {
        self.addr
    }

    fn with_addr(self, addr: usize) -> Self {
        proof {
            lemma_wrapping_sub(addr, self.addr);
            lemma_wrap_inner(self.addr as int, addr - self.addr);
            lemma_wrap_small(addr as int);
        }
        self.wrapping_byte_add(addr.wrapping_sub(self.addr))
    }

    fn map_addr<F: FnOnce(usize) -> usize>(self, f: F) -> Self {
        let addr = f(self.addr);
        self.with_addr(addr)
    }
}

impl<T> MutPtr<T> {
    /// The pointer whose abstract value is `v`.
    pub closed spec fn from_view(v: PtrView) -> Self {
        MutPtr { addr: v.addr, prov: v.prov, marker: PhantomData }
    }

    /// A pointer with the given address and provenance.
    pub fn from_parts(addr: usize, prov: Provenance) -> (r: Self)
        ensures
            r@ == (PtrView { addr, prov }),
            r == Self::from_view(PtrView { addr, prov }),
    {
        MutPtr { addr, prov, marker: PhantomData }
    }

    /// The provenance this pointer carries.
    pub fn provenance(&self) -> (r: Provenance)
        ensures
            r == self@.prov,
    {
        self.prov
    }

    /// Whether the address is zero.
    pub fn is_null(&self) -> (r: bool)
        ensures
            r == (self@.addr == 0),
    {
        self.addr == 0
    }

    /// The same pointer, seen as pointing to a `U`.
    pub fn cast<U>(self) -> (r: MutPtr<U>)
        ensures
            r@ == self@,
    {
        MutPtr { addr: self.addr, prov: self.prov, marker: PhantomData }
    }

    /// The same pointer with the other mutability.
    pub fn cast_const(self) -> (r: ConstPtr<T>)
        ensures
            r@ == self@,
    {
        ConstPtr::from_parts(self.addr, self.prov)
    }

    /// Moves the address `count` bytes forward, wrapping around the address space.
    pub fn wrapping_byte_add(self, count: usize) -> (r: Self)
        ensures
            r@ == self@.with_addr(wrap_addr(self@.addr + count)),
    {
        proof {
            lemma_wrapping_add(self.addr, count);
        }
        MutPtr { addr: self.addr.wrapping_add(count), prov: self.prov, marker: PhantomData }
    }

    /// Moves the address by `count` bytes, wrapping around the address space.
    pub fn wrapping_byte_offset(self, count: isize) -> (r: Self)
        ensures
            r@ == self@.with_addr(wrap_addr(self@.addr + count)),
    {
        proof {
            lemma_wrapping_add_signed(self.addr, count);
        }
        MutPtr { addr: self.addr.wrapping_add_signed(count), prov: self.prov, marker: PhantomData }
    }

    /// Moves the address by `count` values of `T`, wrapping around the address space.
    pub fn wrapping_offset(self, count: isize) -> (r: Self)
        ensures
            r@ == self@.with_addr(wrap_addr(self@.addr + count * size_of::<T>())),
    {
        let size = core::mem::size_of::<T>();
        if count >= 0 {
            let c = count as usize;
            proof {
                lemma_wrapping_mul(c, size);
                lemma_wrap_inner(self.addr as int, c * size);
            }
            self.wrapping_byte_add(c.wrapping_mul(size))
        } else {
            let c = (-(count + 1)) as usize + 1;
            let back = c.wrapping_mul(size);
            proof {
                lemma_wrapping_mul(c, size);
                lemma_wrapping_sub(self.addr, back);
                lemma_wrap_inner(self.addr as int, c * size);
                assert(self.addr - c * size == self.addr + count * size) by (nonlinear_arith)
                    requires
                        c == -count,
                ;
            }
            MutPtr { addr: self.addr.wrapping_sub(back), prov: self.prov, marker: PhantomData }
        }
    }
}


/// The pointer that `from_view` gives has the abstract value it was given.
pub broadcast proof fn lemma_mut_from_view<T>(v: PtrView)
    ensures
        #[trigger] MutPtr::<T>::from_view(v)@ == v,
{
}

/// A null pointer: address zero, no provenance.
pub fn null<T>() -> (r: ConstPtr<T>)
    ensures
        r@ == PtrView::invalid(0),
{
    ConstPtr::from_parts(0, Provenance::Empty)
}

/// A null mutable pointer: address zero, no provenance.
pub fn null_mut<T>() -> (r: MutPtr<T>)
    ensures
        r@ == PtrView::invalid(0),
{
    MutPtr::from_parts(0, Provenance::Empty)
}

} // verus!
