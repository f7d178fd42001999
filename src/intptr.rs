//! Pointers that pretend to be integers: `uptr` and `iptr`.
//!
//! Each holds a real pointer, so that its provenance is never lost, and behaves as a machine
//! integer otherwise. Every operation takes its provenance from the left operand; that of the
//! right operand is dropped. They are an escape hatch for code that cannot yet keep addresses
//! and provenance apart, not a general-purpose integer type.
use crate::ptr::{
    lemma_mut_from_view, lemma_wrapping_add, wrap_addr, ConstPtr, MutPtr, Provenance, PtrView,
};
use crate::Strict;
use vstd::prelude::*;
use vstd::std_specs::ops::AddSpec;
use vstd::wrapping::{isize_specs, usize_specs};

verus! {

/// Casting an `isize` to `usize` and back gives it unchanged.
proof fn lemma_isize_round_trip(v: isize)
    ensures
        (v as usize) as isize == v,
{
    assert((v as usize) as isize == v) by (bit_vector);
}

/// What the operations of `uptr` and `iptr` give, in terms of the pointers they hold.
pub broadcast group group_int_ptr_facts {
    lemma_uptr_holding,
    lemma_uptr_lhs_with,
    lemma_iptr_holding,
    lemma_iptr_lhs_with,
}

/// `isize::wrapping_div` on a nonzero divisor: the quotient rounded toward zero, where only
/// `MIN / -1` overflows, and wraps to `MIN`.
pub open spec fn wrapping_quotient(a: isize, b: isize) -> isize {
    match a.checked_div(b) {
        Some(q) => q,
        None => isize::MIN,
    }
}

/// A pointer that pretends to be an unsigned integer.
///
/// Arithmetic and bitwise operations act on the address as on a `usize` and keep the
/// provenance of the left operand.
#[allow(non_camel_case_types)]
#[derive(Clone, Copy, Debug)]
pub struct uptr(MutPtr<()>);

impl View for uptr {
    type V = PtrView;

    closed spec fn view(&self) -> PtrView {
        self.0@
    }
}

impl uptr {
    /// The width of the integer in bits.
    pub const BITS: u32 = usize::BITS;

    /// The smallest value, `usize::MIN`, with no provenance.
    pub fn min_value() -> (r: uptr)
        ensures
            r@ == PtrView::invalid(usize::MIN),
            r.value() == usize::MIN,
    {
        uptr::from_int(usize::MIN)
    }

    /// The largest value, `usize::MAX`, with no provenance.
    pub fn max_value() -> (r: uptr)
        ensures
            r@ == PtrView::invalid(usize::MAX),
            r.value() == usize::MAX,
    {
        uptr::from_int(usize::MAX)
    }

    /// The integer this value stands for.
    pub open spec fn value(&self) -> usize {
        self@.addr
    }

    /// The value holding the pointer whose abstract value is `p`.
    pub closed spec fn holding(p: PtrView) -> uptr {
        uptr(MutPtr::from_view(p))
    }

    /// The value with the provenance of `self` that stands for `v`.
    pub open spec fn lhs_with(self, v: usize) -> uptr {
        uptr::holding(self@.with_addr(v))
    }

    /// The integer this value stands for.
    fn int_value(self) -> (r: usize)
        ensures
            r == self.value(),
    {
        self.0.addr()
    }

    /// The value with the provenance of `self` that stands for `v`.
    fn with_value(self, v: usize) -> (r: uptr)
        ensures
            r == self.lhs_with(v),
            r@ == self@.with_addr(v),
            r.value() == v,
    {
        proof {
            lemma_uptr_lhs_with(self, v);
        }
        uptr(MutPtr::from_parts(v, self.0.provenance()))
    }

    /// The value that stands for `val`, with no provenance.
    pub fn from_int(val: usize) -> (r: uptr)
        ensures
            r@ == PtrView::invalid(val),
            r == uptr::holding(PtrView::invalid(val)),
            r.value() == val,
    {
        proof {
            lemma_mut_from_view::<()>(PtrView::invalid(val));
            
        }
        uptr(MutPtr::from_parts(val, Provenance::Empty))
    }

    /// The value holding `val`, provenance included.
    pub fn from_ptr_mut<T>(val: MutPtr<T>) -> (r: uptr)
        ensures
            r@ == val@,
            r == uptr::holding(val@),
    {
        proof {
            lemma_mut_from_view::<()>(val@);
        }
        uptr(MutPtr::from_parts(val.addr(), val.provenance()))
    }

    /// The value holding `val`, provenance included.
    pub fn from_ptr<T>(val: ConstPtr<T>) -> (r: uptr)
        ensures
            r@ == val@,
            r == uptr::holding(val@),
    {
        proof {
            lemma_mut_from_view::<()>(val@);
        }
        uptr(MutPtr::from_parts(val.addr(), val.provenance()))
    }

    /// The pointer held, provenance included.
    pub fn to_ptr(self) -> (r: MutPtr<()>)
        ensures
            r@ == self@,
    {
        self.0
    }

    /// The wrapping sum, with the provenance of `self`.
    pub fn wrapping_add(self, rhs: uptr) -> (r: uptr)
        ensures
            r == self.lhs_with(usize_specs::wrapping_add(self.value(), rhs.value())),
            r@ == self@.with_addr(usize_specs::wrapping_add(self.value(), rhs.value())),
            r.value() == usize_specs::wrapping_add(self.value(), rhs.value()),
    {
        self.with_value(self.int_value().wrapping_add(rhs.int_value()))
    }

    /// The wrapping difference, with the provenance of `self`.
    pub fn wrapping_sub(self, rhs: uptr) -> (r: uptr)
        ensures
            r == self.lhs_with(usize_specs::wrapping_sub(self.value(), rhs.value())),
            r@ == self@.with_addr(usize_specs::wrapping_sub(self.value(), rhs.value())),
            r.value() == usize_specs::wrapping_sub(self.value(), rhs.value()),
    {
        self.with_value(self.int_value().wrapping_sub(rhs.int_value()))
    }

    /// The wrapping product, with the provenance of `self`.
    pub fn wrapping_mul(self, rhs: uptr) -> (r: uptr)
        ensures
            r == self.lhs_with(usize_specs::wrapping_mul(self.value(), rhs.value())),
            r@ == self@.with_addr(usize_specs::wrapping_mul(self.value(), rhs.value())),
            r.value() == usize_specs::wrapping_mul(self.value(), rhs.value()),
    {
        self.with_value(self.int_value().wrapping_mul(rhs.int_value()))
    }

    /// The quotient, with the provenance of `self`.
    pub fn wrapping_div(self, rhs: uptr) -> (r: uptr)
        requires
            rhs.value() != 0,
        ensures
            r == self.lhs_with(self.value() / rhs.value()),
            r@ == self@.with_addr(self.value() / rhs.value()),
            r.value() == self.value() / rhs.value(),
    {
        self.with_value(self.int_value() / rhs.int_value())
    }
}

/// A value built by `holding` holds the pointer it was given.
pub broadcast proof fn lemma_uptr_holding(p: PtrView)
    ensures
        #[trigger] uptr::holding(p)@ == p,
{
    lemma_mut_from_view::<()>(p);
}

/// The value that `lhs_with` gives has the provenance of `x` and stands for `v`.
pub broadcast proof fn lemma_uptr_lhs_with(x: uptr, v: usize)
    ensures
        #[trigger] x.lhs_with(v)@ == x@.with_addr(v),
        x.lhs_with(v).value() == v,
{
    lemma_mut_from_view::<()>(x@.with_addr(v));
    
}

impl PartialEq for uptr {
    fn eq(&self, other: &uptr) -> bool {
        self.0.addr() == other.0.addr()
    }
}

impl vstd::std_specs::cmp::PartialEqSpecImpl for uptr {
    open spec fn obeys_eq_spec() -> bool {
        true
    }

    open spec fn eq_spec(&self, other: &uptr) -> bool {
        self@.addr == other@.addr
    }
}

impl Eq for uptr {}

impl core::ops::Add<uptr> for uptr {
    type Output = uptr;

    /// The wrapping sum, with the provenance of the left operand.
    fn add(self, rhs: uptr) -> uptr {
        self.with_value(self.int_value().wrapping_add(rhs.int_value()))
    }
}

impl vstd::std_specs::ops::AddSpecImpl<uptr> for uptr {
    open spec fn obeys_add_spec() -> bool {
        true
    }

    open spec fn add_req(self, rhs: uptr) -> bool {
        true
    }

    open spec fn add_spec(self, rhs: uptr) -> uptr {
        self.lhs_with(usize_specs::wrapping_add(self.value(), rhs.value()))
    }
}

impl core::ops::Sub<uptr> for uptr {
    type Output = uptr;

    /// The wrapping difference, with the provenance of the left operand.
    fn sub(self, rhs: uptr) -> uptr {
        self.with_value(self.int_value().wrapping_sub(rhs.int_value()))
    }
}

impl vstd::std_specs::ops::SubSpecImpl<uptr> for uptr {
    open spec fn obeys_sub_spec() -> bool {
        true
    }

    open spec fn sub_req(self, rhs: uptr) -> bool {
        true
    }

    open spec fn sub_spec(self, rhs: uptr) -> uptr {
        self.lhs_with(usize_specs::wrapping_sub(self.value(), rhs.value()))
    }
}

impl core::ops::Mul<uptr> for uptr {
    type Output = uptr;

    /// The wrapping product, with the provenance of the left operand.
    fn mul(self, rhs: uptr) -> uptr {
        self.with_value(self.int_value().wrapping_mul(rhs.int_value()))
    }
}

impl vstd::std_specs::ops::MulSpecImpl<uptr> for uptr {
    open spec fn obeys_mul_spec() -> bool {
        true
    }

    open spec fn mul_req(self, rhs: uptr) -> bool {
        true
    }

    open spec fn mul_spec(self, rhs: uptr) -> uptr {
        self.lhs_with(usize_specs::wrapping_mul(self.value(), rhs.value()))
    }
}

impl core::ops::Div<uptr> for uptr {
    type Output = uptr;

    /// The quotient, with the provenance of the left operand.
    fn div(self, rhs: uptr) -> uptr {
        self.with_value(self.int_value() / rhs.int_value())
    }
}

impl vstd::std_specs::ops::DivSpecImpl<uptr> for uptr {
    open spec fn obeys_div_spec() -> bool {
        true
    }

    open spec fn div_req(self, rhs: uptr) -> bool {
        rhs.value() != 0
    }

    open spec fn div_spec(self, rhs: uptr) -> uptr {
        self.lhs_with(self.value() / rhs.value())
    }
}

impl core::ops::Rem<uptr> for uptr {
    type Output = uptr;

    /// The remainder, with the provenance of the left operand.
    fn rem(self, rhs: uptr) -> uptr {
        self.with_value(self.int_value() % rhs.int_value())
    }
}

impl vstd::std_specs::ops::RemSpecImpl<uptr> for uptr {
    open spec fn obeys_rem_spec() -> bool {
        true
    }

    open spec fn rem_req(self, rhs: uptr) -> bool {
        rhs.value() != 0
    }

    open spec fn rem_spec(self, rhs: uptr) -> uptr {
        self.lhs_with(self.value() % rhs.value())
    }
}

impl core::ops::BitAnd<uptr> for uptr {
    type Output = uptr;

    /// The bitwise and, with the provenance of the left operand.
    fn bitand(self, rhs: uptr) -> uptr {
        self.with_value(self.int_value() & rhs.int_value())
    }
}

impl vstd::std_specs::ops::BitAndSpecImpl<uptr> for uptr {
    open spec fn obeys_bitand_spec() -> bool {
        true
    }

    open spec fn bitand_req(self, rhs: uptr) -> bool {
        true
    }

    open spec fn bitand_spec(self, rhs: uptr) -> uptr {
        self.lhs_with(self.value() & rhs.value())
    }
}

impl core::ops::BitOr<uptr> for uptr {
    type Output = uptr;

    /// The bitwise or, with the provenance of the left operand.
    fn bitor(self, rhs: uptr) -> uptr {
        self.with_value(self.int_value() | rhs.int_value())
    }
}

impl vstd::std_specs::ops::BitOrSpecImpl<uptr> for uptr {
    open spec fn obeys_bitor_spec() -> bool {
        true
    }

    open spec fn bitor_req(self, rhs: uptr) -> bool {
        true
    }

    open spec fn bitor_spec(self, rhs: uptr) -> uptr {
        self.lhs_with(self.value() | rhs.value())
    }
}

impl core::ops::BitXor<uptr> for uptr {
    type Output = uptr;

    /// The bitwise exclusive or, with the provenance of the left operand.
    fn bitxor(self, rhs: uptr) -> uptr {
        self.with_value(self.int_value() ^ rhs.int_value())
    }
}

impl vstd::std_specs::ops::BitXorSpecImpl<uptr> for uptr {
    open spec fn obeys_bitxor_spec() -> bool {
        true
    }

    open spec fn bitxor_req(self, rhs: uptr) -> bool {
        true
    }

    open spec fn bitxor_spec(self, rhs: uptr) -> uptr {
        self.lhs_with(self.value() ^ rhs.value())
    }
}

impl core::ops::Shl<usize> for uptr {
    type Output = uptr;

    /// The value shifted left by `rhs` bits, with the provenance of the left operand.
    fn shl(self, rhs: usize) -> uptr {
        self.with_value(self.int_value() << rhs)
    }
}

impl vstd::std_specs::ops::ShlSpecImpl<usize> for uptr {
    open spec fn obeys_shl_spec() -> bool {
        true
    }

    open spec fn shl_req(self, rhs: usize) -> bool {
        rhs < usize::BITS
    }

    open spec fn shl_spec(self, rhs: usize) -> uptr {
        self.lhs_with(self.value() << rhs)
    }
}

impl core::ops::Shr<usize> for uptr {
    type Output = uptr;

    /// The value shifted right by `rhs` bits, with the provenance of the left operand.
    fn shr(self, rhs: usize) -> uptr {
        self.with_value(self.int_value() >> rhs)
    }
}

impl vstd::std_specs::ops::ShrSpecImpl<usize> for uptr {
    open spec fn obeys_shr_spec() -> bool {
        true
    }

    open spec fn shr_req(self, rhs: usize) -> bool {
        rhs < usize::BITS
    }

    open spec fn shr_spec(self, rhs: usize) -> uptr {
        self.lhs_with(self.value() >> rhs)
    }
}

impl core::ops::Not for uptr {
    type Output = uptr;

    /// The bitwise complement, with the provenance of the operand.
    fn not(self) -> uptr {
        self.with_value(!self.int_value())
    }
}

impl vstd::std_specs::ops::NotSpecImpl for uptr {
    open spec fn obeys_not_spec() -> bool {
        true
    }

    open spec fn not_req(self) -> bool {
        true
    }

    open spec fn not_spec(self) -> uptr {
        self.lhs_with(!self.value())
    }
}

impl core::ops::AddAssign<uptr> for uptr {
    fn add_assign(&mut self, rhs: uptr)
        ensures
            *final(self) == old(self).lhs_with(usize_specs::wrapping_add(old(self).value(), rhs.value())),
            final(self)@.prov == old(self)@.prov,
            final(self).value() == usize_specs::wrapping_add(old(self).value(), rhs.value()),
    {
        let before = *self;
        *self = before + rhs;
        proof {
            lemma_uptr_lhs_with(before, usize_specs::wrapping_add(before.value(), rhs.value()));
        }
    }
}

impl core::ops::SubAssign<uptr> for uptr {
    fn sub_assign(&mut self, rhs: uptr)
        ensures
            *final(self) == old(self).lhs_with(usize_specs::wrapping_sub(old(self).value(), rhs.value())),
            final(self)@.prov == old(self)@.prov,
            final(self).value() == usize_specs::wrapping_sub(old(self).value(), rhs.value()),
    {
        let before = *self;
        *self = before - rhs;
        proof {
            lemma_uptr_lhs_with(before, usize_specs::wrapping_sub(before.value(), rhs.value()));
        }
    }
}

impl core::ops::MulAssign<uptr> for uptr {
    fn mul_assign(&mut self, rhs: uptr)
        ensures
            *final(self) == old(self).lhs_with(usize_specs::wrapping_mul(old(self).value(), rhs.value())),
            final(self)@.prov == old(self)@.prov,
            final(self).value() == usize_specs::wrapping_mul(old(self).value(), rhs.value()),
    {
        let before = *self;
        *self = before * rhs;
        proof {
            lemma_uptr_lhs_with(before, usize_specs::wrapping_mul(before.value(), rhs.value()));
        }
    }
}

impl core::ops::BitAndAssign<uptr> for uptr {
    fn bitand_assign(&mut self, rhs: uptr)
        ensures
            *final(self) == old(self).lhs_with(old(self).value() & rhs.value()),
            final(self)@.prov == old(self)@.prov,
            final(self).value() == old(self).value() & rhs.value(),
    {
        let before = *self;
        *self = before & rhs;
        proof {
            lemma_uptr_lhs_with(before, before.value() & rhs.value());
        }
    }
}

impl core::ops::BitOrAssign<uptr> for uptr {
    fn bitor_assign(&mut self, rhs: uptr)
        ensures
            *final(self) == old(self).lhs_with(old(self).value() | rhs.value()),
            final(self)@.prov == old(self)@.prov,
            final(self).value() == old(self).value() | rhs.value(),
    {
        let before = *self;
        *self = before | rhs;
        proof {
            lemma_uptr_lhs_with(before, before.value() | rhs.value());
        }
    }
}

impl core::ops::BitXorAssign<uptr> for uptr {
    fn bitxor_assign(&mut self, rhs: uptr)
        ensures
            *final(self) == old(self).lhs_with(old(self).value() ^ rhs.value()),
            final(self)@.prov == old(self)@.prov,
            final(self).value() == old(self).value() ^ rhs.value(),
    {
        let before = *self;
        *self = before ^ rhs;
        proof {
            lemma_uptr_lhs_with(before, before.value() ^ rhs.value());
        }
    }
}

impl From<usize> for uptr {
    fn from(val: usize) -> uptr {
        uptr::from_int(val)
    }
}

impl vstd::std_specs::convert::FromSpecImpl<usize> for uptr {
    open spec fn obeys_from_spec() -> bool {
        true
    }

    open spec fn from_spec(v: usize) -> uptr {
        uptr::holding(PtrView::invalid(v))
    }
}

impl<T> From<MutPtr<T>> for uptr {
    fn from(val: MutPtr<T>) -> uptr {
        uptr::from_ptr_mut(val)
    }
}

impl<T> vstd::std_specs::convert::FromSpecImpl<MutPtr<T>> for uptr {
    open spec fn obeys_from_spec() -> bool {
        true
    }

    open spec fn from_spec(v: MutPtr<T>) -> uptr {
        uptr::holding(v@)
    }
}

impl<T> From<ConstPtr<T>> for uptr {
    fn from(val: ConstPtr<T>) -> uptr {
        uptr::from_ptr(val)
    }
}

impl<T> vstd::std_specs::convert::FromSpecImpl<ConstPtr<T>> for uptr {
    open spec fn obeys_from_spec() -> bool {
        true
    }

    open spec fn from_spec(v: ConstPtr<T>) -> uptr {
        uptr::holding(v@)
    }
}

impl PartialOrd for uptr {
    fn partial_cmp(&self, other: &uptr) -> Option<core::cmp::Ordering> {
        let a = self.int_value();
        let b = other.int_value();
        if a < b {
            Some(core::cmp::Ordering::Less)
        } else if a > b {
            Some(core::cmp::Ordering::Greater)
        } else {
            Some(core::cmp::Ordering::Equal)
        }
    }
}

impl vstd::std_specs::cmp::PartialOrdSpecImpl for uptr {
    open spec fn obeys_partial_cmp_spec() -> bool {
        true
    }

    /// Values are ordered as the integers they stand for.
    open spec fn partial_cmp_spec(&self, other: &uptr) -> Option<core::cmp::Ordering> {
        if self.value() < other.value() {
            Some(core::cmp::Ordering::Less)
        } else if self.value() > other.value() {
            Some(core::cmp::Ordering::Greater)
        } else {
            Some(core::cmp::Ordering::Equal)
        }
    }
}

/// A pointer that pretends to be a signed integer.
///
/// Arithmetic and bitwise operations act on the address as on an `isize` and keep the
/// provenance of the left operand.
#[allow(non_camel_case_types)]
#[derive(Clone, Copy, Debug)]
pub struct iptr(MutPtr<()>);

impl View for iptr {
    type V = PtrView;

    closed spec fn view(&self) -> PtrView {
        self.0@
    }
}

impl iptr {
    /// The width of the integer in bits.
    pub const BITS: u32 = isize::BITS;

    /// The smallest value, `isize::MIN`, with no provenance.
    pub fn min_value() -> (r: iptr)
        ensures
            r@ == PtrView::invalid(isize::MIN as usize),
            r.value() == isize::MIN,
    {
        iptr::from_int(isize::MIN)
    }

    /// The largest value, `isize::MAX`, with no provenance.
    pub fn max_value() -> (r: iptr)
        ensures
            r@ == PtrView::invalid(isize::MAX as usize),
            r.value() == isize::MAX,
    {
        iptr::from_int(isize::MAX)
    }

    /// The integer this value stands for.
    pub open spec fn value(&self) -> isize {
        (self@.addr as isize)
    }

    /// The value holding the pointer whose abstract value is `p`.
    pub closed spec fn holding(p: PtrView) -> iptr {
        iptr(MutPtr::from_view(p))
    }

    /// The value with the provenance of `self` that stands for `v`.
    pub open spec fn lhs_with(self, v: isize) -> iptr {
        iptr::holding(self@.with_addr(v as usize))
    }

    /// The integer this value stands for.
    fn int_value(self) -> (r: isize)
        ensures
            r == self.value(),
    {
        #[verifier::truncate] (self.0.addr() as isize)
    }

    /// The value with the provenance of `self` that stands for `v`.
    fn with_value(self, v: isize) -> (r: iptr)
        ensures
            r == self.lhs_with(v),
            r@ == self@.with_addr(v as usize),
            r.value() == v,
    {
        proof {
            lemma_iptr_lhs_with(self, v);
        }
        iptr(MutPtr::from_parts(#[verifier::truncate] (v as usize), self.0.provenance()))
    }

    /// The value that stands for `val`, with no provenance.
    pub fn from_int(val: isize) -> (r: iptr)
        ensures
            r@ == PtrView::invalid(val as usize),
            r == iptr::holding(PtrView::invalid(val as usize)),
            r.value() == val,
    {
        proof {
            lemma_mut_from_view::<()>(PtrView::invalid(val as usize));
            lemma_isize_round_trip(val);
        }
        iptr(MutPtr::from_parts(#[verifier::truncate] (val as usize), Provenance::Empty))
    }

    /// The value holding `val`, provenance included.
    pub fn from_ptr_mut<T>(val: MutPtr<T>) -> (r: iptr)
        ensures
            r@ == val@,
            r == iptr::holding(val@),
    {
        proof {
            lemma_mut_from_view::<()>(val@);
        }
        iptr(MutPtr::from_parts(val.addr(), val.provenance()))
    }

    /// The value holding `val`, provenance included.
    pub fn from_ptr<T>(val: ConstPtr<T>) -> (r: iptr)
        ensures
            r@ == val@,
            r == iptr::holding(val@),
    {
        proof {
            lemma_mut_from_view::<()>(val@);
        }
        iptr(MutPtr::from_parts(val.addr(), val.provenance()))
    }

    /// The pointer held, provenance included.
    pub fn to_ptr(self) -> (r: MutPtr<()>)
        ensures
            r@ == self@,
    {
        self.0
    }

    /// The wrapping sum, with the provenance of `self`.
    pub fn wrapping_add(self, rhs: iptr) -> (r: iptr)
        ensures
            r == self.lhs_with(isize_specs::wrapping_add(self.value(), rhs.value())),
            r@ == self@.with_addr(isize_specs::wrapping_add(self.value(), rhs.value()) as usize),
            r.value() == isize_specs::wrapping_add(self.value(), rhs.value()),
    {
        self.with_value(self.int_value().wrapping_add(rhs.int_value()))
    }

    /// The wrapping difference, with the provenance of `self`.
    pub fn wrapping_sub(self, rhs: iptr) -> (r: iptr)
        ensures
            r == self.lhs_with(isize_specs::wrapping_sub(self.value(), rhs.value())),
            r@ == self@.with_addr(isize_specs::wrapping_sub(self.value(), rhs.value()) as usize),
            r.value() == isize_specs::wrapping_sub(self.value(), rhs.value()),
    {
        self.with_value(self.int_value().wrapping_sub(rhs.int_value()))
    }

    /// The wrapping product, with the provenance of `self`.
    pub fn wrapping_mul(self, rhs: iptr) -> (r: iptr)
        ensures
            r == self.lhs_with(isize_specs::wrapping_mul(self.value(), rhs.value())),
            r@ == self@.with_addr(isize_specs::wrapping_mul(self.value(), rhs.value()) as usize),
            r.value() == isize_specs::wrapping_mul(self.value(), rhs.value()),
    {
        self.with_value(self.int_value().wrapping_mul(rhs.int_value()))
    }

    /// The quotient rounded toward zero, wrapping `MIN / -1` to `MIN`, with the provenance of
    /// `self`.
    pub fn wrapping_div(self, rhs: iptr) -> (r: iptr)
        requires
            rhs.value() != 0,
        ensures
            r == self.lhs_with(wrapping_quotient(self.value(), rhs.value())),
            r@ == self@.with_addr(wrapping_quotient(self.value(), rhs.value()) as usize),
            r.value() == wrapping_quotient(self.value(), rhs.value()),
    {
        let q = match self.int_value().checked_div(rhs.int_value()) {
            Some(q) => q,
            None => isize::MIN,
        };
        self.with_value(q)
    }
}

/// A value built by `holding` holds the pointer it was given.
pub broadcast proof fn lemma_iptr_holding(p: PtrView)
    ensures
        #[trigger] iptr::holding(p)@ == p,
{
    lemma_mut_from_view::<()>(p);
}

/// The value that `lhs_with` gives has the provenance of `x` and stands for `v`.
pub broadcast proof fn lemma_iptr_lhs_with(x: iptr, v: isize)
    ensures
        #[trigger] x.lhs_with(v)@ == x@.with_addr(v as usize),
        x.lhs_with(v).value() == v,
{
    lemma_mut_from_view::<()>(x@.with_addr(v as usize));
    lemma_isize_round_trip(v);
}

impl PartialEq for iptr {
    fn eq(&self, other: &iptr) -> bool {
        self.0.addr() == other.0.addr()
    }
}

impl vstd::std_specs::cmp::PartialEqSpecImpl for iptr {
    open spec fn obeys_eq_spec() -> bool {
        true
    }

    open spec fn eq_spec(&self, other: &iptr) -> bool {
        self@.addr == other@.addr
    }
}

impl Eq for iptr {}

impl core::ops::Add<iptr> for iptr {
    type Output = iptr;

    /// The wrapping sum, with the provenance of the left operand.
    fn add(self, rhs: iptr) -> iptr {
        self.with_value(self.int_value().wrapping_add(rhs.int_value()))
    }
}

impl vstd::std_specs::ops::AddSpecImpl<iptr> for iptr {
    open spec fn obeys_add_spec() -> bool {
        true
    }

    open spec fn add_req(self, rhs: iptr) -> bool {
        true
    }

    open spec fn add_spec(self, rhs: iptr) -> iptr {
        self.lhs_with(isize_specs::wrapping_add(self.value(), rhs.value()))
    }
}

impl core::ops::Sub<iptr> for iptr {
    type Output = iptr;

    /// The wrapping difference, with the provenance of the left operand.
    fn sub(self, rhs: iptr) -> iptr {
        self.with_value(self.int_value().wrapping_sub(rhs.int_value()))
    }
}

impl vstd::std_specs::ops::SubSpecImpl<iptr> for iptr {
    open spec fn obeys_sub_spec() -> bool {
        true
    }

    open spec fn sub_req(self, rhs: iptr) -> bool {
        true
    }

    open spec fn sub_spec(self, rhs: iptr) -> iptr {
        self.lhs_with(isize_specs::wrapping_sub(self.value(), rhs.value()))
    }
}

impl core::ops::Mul<iptr> for iptr {
    type Output = iptr;

    /// The wrapping product, with the provenance of the left operand.
    fn mul(self, rhs: iptr) -> iptr {
        self.with_value(self.int_value().wrapping_mul(rhs.int_value()))
    }
}

impl vstd::std_specs::ops::MulSpecImpl<iptr> for iptr {
    open spec fn obeys_mul_spec() -> bool {
        true
    }

    open spec fn mul_req(self, rhs: iptr) -> bool {
        true
    }

    open spec fn mul_spec(self, rhs: iptr) -> iptr {
        self.lhs_with(isize_specs::wrapping_mul(self.value(), rhs.value()))
    }
}

impl core::ops::Div<iptr> for iptr {
    type Output = iptr;

    /// The quotient rounded toward zero, with the provenance of the left operand.
    fn div(self, rhs: iptr) -> iptr {
        self.with_value(self.int_value().checked_div(rhs.int_value()).unwrap())
    }
}

impl vstd::std_specs::ops::DivSpecImpl<iptr> for iptr {
    open spec fn obeys_div_spec() -> bool {
        true
    }

    open spec fn div_req(self, rhs: iptr) -> bool {
        self.value().checked_div(rhs.value()) is Some
    }

    open spec fn div_spec(self, rhs: iptr) -> iptr {
        self.lhs_with(self.value().checked_div(rhs.value()).unwrap())
    }
}

impl core::ops::Rem<iptr> for iptr {
    type Output = iptr;

    /// The remainder, with the sign of the dividend, with the provenance of the left operand.
    fn rem(self, rhs: iptr) -> iptr {
        self.with_value(self.int_value().checked_rem(rhs.int_value()).unwrap())
    }
}

impl vstd::std_specs::ops::RemSpecImpl<iptr> for iptr {
    open spec fn obeys_rem_spec() -> bool {
        true
    }

    open spec fn rem_req(self, rhs: iptr) -> bool {
        self.value().checked_rem(rhs.value()) is Some
    }

    open spec fn rem_spec(self, rhs: iptr) -> iptr {
        self.lhs_with(self.value().checked_rem(rhs.value()).unwrap())
    }
}

impl core::ops::BitAnd<iptr> for iptr {
    type Output = iptr;

    /// The bitwise and, with the provenance of the left operand.
    fn bitand(self, rhs: iptr) -> iptr {
        self.with_value(self.int_value() & rhs.int_value())
    }
}

impl vstd::std_specs::ops::BitAndSpecImpl<iptr> for iptr {
    open spec fn obeys_bitand_spec() -> bool {
        true
    }

    open spec fn bitand_req(self, rhs: iptr) -> bool {
        true
    }

    open spec fn bitand_spec(self, rhs: iptr) -> iptr {
        self.lhs_with(self.value() & rhs.value())
    }
}

impl core::ops::BitOr<iptr> for iptr {
    type Output = iptr;

    /// The bitwise or, with the provenance of the left operand.
    fn bitor(self, rhs: iptr) -> iptr {
        self.with_value(self.int_value() | rhs.int_value())
    }
}

impl vstd::std_specs::ops::BitOrSpecImpl<iptr> for iptr {
    open spec fn obeys_bitor_spec() -> bool {
        true
    }

    open spec fn bitor_req(self, rhs: iptr) -> bool {
        true
    }

    open spec fn bitor_spec(self, rhs: iptr) -> iptr {
        self.lhs_with(self.value() | rhs.value())
    }
}

impl core::ops::BitXor<iptr> for iptr {
    type Output = iptr;

    /// The bitwise exclusive or, with the provenance of the left operand.
    fn bitxor(self, rhs: iptr) -> iptr {
        self.with_value(self.int_value() ^ rhs.int_value())
    }
}

impl vstd::std_specs::ops::BitXorSpecImpl<iptr> for iptr {
    open spec fn obeys_bitxor_spec() -> bool {
        true
    }

    open spec fn bitxor_req(self, rhs: iptr) -> bool {
        true
    }

    open spec fn bitxor_spec(self, rhs: iptr) -> iptr {
        self.lhs_with(self.value() ^ rhs.value())
    }
}

impl core::ops::Shl<usize> for iptr {
    type Output = iptr;

    /// The value shifted left by `rhs` bits, with the provenance of the left operand.
    fn shl(self, rhs: usize) -> iptr {
        self.with_value(self.int_value() << rhs)
    }
}

impl vstd::std_specs::ops::ShlSpecImpl<usize> for iptr {
    open spec fn obeys_shl_spec() -> bool {
        true
    }

    open spec fn shl_req(self, rhs: usize) -> bool {
        rhs < isize::BITS
    }

    open spec fn shl_spec(self, rhs: usize) -> iptr {
        self.lhs_with(self.value() << rhs)
    }
}

impl core::ops::Shr<usize> for iptr {
    type Output = iptr;

    /// The value shifted right by `rhs` bits, with the provenance of the left operand.
    fn shr(self, rhs: usize) -> iptr {
        self.with_value(self.int_value() >> rhs)
    }
}

impl vstd::std_specs::ops::ShrSpecImpl<usize> for iptr {
    open spec fn obeys_shr_spec() -> bool {
        true
    }

    open spec fn shr_req(self, rhs: usize) -> bool {
        rhs < isize::BITS
    }

    open spec fn shr_spec(self, rhs: usize) -> iptr {
        self.lhs_with(self.value() >> rhs)
    }
}

impl core::ops::Not for iptr {
    type Output = iptr;

    /// The bitwise complement, with the provenance of the operand.
    fn not(self) -> iptr {
        self.with_value(!self.int_value())
    }
}

impl vstd::std_specs::ops::NotSpecImpl for iptr {
    open spec fn obeys_not_spec() -> bool {
        true
    }

    open spec fn not_req(self) -> bool {
        true
    }

    open spec fn not_spec(self) -> iptr {
        self.lhs_with(!self.value())
    }
}

impl core::ops::Neg for iptr {
    type Output = iptr;

    /// The wrapping negation, with the provenance of the operand.
    fn neg(self) -> iptr {
        self.with_value(0isize.wrapping_sub(self.int_value()))
    }
}

impl vstd::std_specs::ops::NegSpecImpl for iptr {
    open spec fn obeys_neg_spec() -> bool {
        true
    }

    open spec fn neg_req(self) -> bool {
        true
    }

    open spec fn neg_spec(self) -> iptr {
        self.lhs_with(isize_specs::wrapping_sub(0, self.value()))
    }
}

impl core::ops::AddAssign<iptr> for iptr {
    fn add_assign(&mut self, rhs: iptr)
        ensures
            *final(self) == old(self).lhs_with(isize_specs::wrapping_add(old(self).value(), rhs.value())),
            final(self)@.prov == old(self)@.prov,
            final(self).value() == isize_specs::wrapping_add(old(self).value(), rhs.value()),
    {
        let before = *self;
        *self = before + rhs;
        proof {
            lemma_iptr_lhs_with(before, isize_specs::wrapping_add(before.value(), rhs.value()));
        }
    }
}

impl core::ops::SubAssign<iptr> for iptr {
    fn sub_assign(&mut self, rhs: iptr)
        ensures
            *final(self) == old(self).lhs_with(isize_specs::wrapping_sub(old(self).value(), rhs.value())),
            final(self)@.prov == old(self)@.prov,
            final(self).value() == isize_specs::wrapping_sub(old(self).value(), rhs.value()),
    {
        let before = *self;
        *self = before - rhs;
        proof {
            lemma_iptr_lhs_with(before, isize_specs::wrapping_sub(before.value(), rhs.value()));
        }
    }
}

impl core::ops::MulAssign<iptr> for iptr {
    fn mul_assign(&mut self, rhs: iptr)
        ensures
            *final(self) == old(self).lhs_with(isize_specs::wrapping_mul(old(self).value(), rhs.value())),
            final(self)@.prov == old(self)@.prov,
            final(self).value() == isize_specs::wrapping_mul(old(self).value(), rhs.value()),
    {
        let before = *self;
        *self = before * rhs;
        proof {
            lemma_iptr_lhs_with(before, isize_specs::wrapping_mul(before.value(), rhs.value()));
        }
    }
}

impl core::ops::BitAndAssign<iptr> for iptr {
    fn bitand_assign(&mut self, rhs: iptr)
        ensures
            *final(self) == old(self).lhs_with(old(self).value() & rhs.value()),
            final(self)@.prov == old(self)@.prov,
            final(self).value() == old(self).value() & rhs.value(),
    {
        let before = *self;
        *self = before & rhs;
        proof {
            lemma_iptr_lhs_with(before, before.value() & rhs.value());
        }
    }
}

impl core::ops::BitOrAssign<iptr> for iptr {
    fn bitor_assign(&mut self, rhs: iptr)
        ensures
            *final(self) == old(self).lhs_with(old(self).value() | rhs.value()),
            final(self)@.prov == old(self)@.prov,
            final(self).value() == old(self).value() | rhs.value(),
    {
        let before = *self;
        *self = before | rhs;
        proof {
            lemma_iptr_lhs_with(before, before.value() | rhs.value());
        }
    }
}

impl core::ops::BitXorAssign<iptr> for iptr {
    fn bitxor_assign(&mut self, rhs: iptr)
        ensures
            *final(self) == old(self).lhs_with(old(self).value() ^ rhs.value()),
            final(self)@.prov == old(self)@.prov,
            final(self).value() == old(self).value() ^ rhs.value(),
    {
        let before = *self;
        *self = before ^ rhs;
        proof {
            lemma_iptr_lhs_with(before, before.value() ^ rhs.value());
        }
    }
}

impl From<isize> for iptr {
    fn from(val: isize) -> iptr {
        iptr::from_int(val)
    }
}

impl vstd::std_specs::convert::FromSpecImpl<isize> for iptr {
    open spec fn obeys_from_spec() -> bool {
        true
    }

    open spec fn from_spec(v: isize) -> iptr {
        iptr::holding(PtrView::invalid(v as usize))
    }
}

impl<T> From<MutPtr<T>> for iptr {
    fn from(val: MutPtr<T>) -> iptr {
        iptr::from_ptr_mut(val)
    }
}

impl<T> vstd::std_specs::convert::FromSpecImpl<MutPtr<T>> for iptr {
    open spec fn obeys_from_spec() -> bool {
        true
    }

    open spec fn from_spec(v: MutPtr<T>) -> iptr {
        iptr::holding(v@)
    }
}

impl<T> From<ConstPtr<T>> for iptr {
    fn from(val: ConstPtr<T>) -> iptr {
        iptr::from_ptr(val)
    }
}

impl<T> vstd::std_specs::convert::FromSpecImpl<ConstPtr<T>> for iptr {
    open spec fn obeys_from_spec() -> bool {
        true
    }

    open spec fn from_spec(v: ConstPtr<T>) -> iptr {
        iptr::holding(v@)
    }
}

impl PartialOrd for iptr {
    fn partial_cmp(&self, other: &iptr) -> Option<core::cmp::Ordering> {
        let a = self.int_value();
        let b = other.int_value();
        if a < b {
            Some(core::cmp::Ordering::Less)
        } else if a > b {
            Some(core::cmp::Ordering::Greater)
        } else {
            Some(core::cmp::Ordering::Equal)
        }
    }
}

impl vstd::std_specs::cmp::PartialOrdSpecImpl for iptr {
    open spec fn obeys_partial_cmp_spec() -> bool {
        true
    }

    /// Values are ordered as the integers they stand for.
    open spec fn partial_cmp_spec(&self, other: &iptr) -> Option<core::cmp::Ordering> {
        if self.value() < other.value() {
            Some(core::cmp::Ordering::Less)
        } else if self.value() > other.value() {
            Some(core::cmp::Ordering::Greater)
        } else {
            Some(core::cmp::Ordering::Equal)
        }
    }
}

/// Adding two `uptr` values gives the sum of their addresses, wrapping around the address
/// space, and the provenance of the left operand, never that of the right one.
pub proof fn sum_takes_left_provenance(a: uptr, b: uptr)
    ensures
        a.add_spec(b)@.addr == wrap_addr(a@.addr + b@.addr),
        a.add_spec(b)@.prov == a@.prov,
{
    lemma_wrapping_add(a@.addr, b@.addr);
    lemma_uptr_lhs_with(a, usize_specs::wrapping_add(a@.addr, b@.addr));
}

} // verus!
