use sptr::{invalid_mut, iptr, uptr, ConstPtr, MutPtr, Provenance, Strict};

fn u(v: usize) -> uptr {
    uptr::from_int(v)
}

fn i(v: isize) -> iptr {
    iptr::from_int(v)
}

fn uval(x: uptr) -> usize {
    x.to_ptr().addr()
}

fn ival(x: iptr) -> isize {
    x.to_ptr().addr() as isize
}

#[test]
fn uptr_sum_wraps_and_keeps_left_provenance() {
    let a = uptr::from_ptr_mut(MutPtr::<u8>::from_parts(usize::MAX, Provenance::Alloc(1)));
    let b = uptr::from_ptr_mut(MutPtr::<u8>::from_parts(2, Provenance::Alloc(2)));
    let s = a + b;
    assert_eq!(uval(s), 1);
    assert_eq!(s.to_ptr().provenance(), Provenance::Alloc(1));
    let t = b + a;
    assert_eq!(uval(t), 1);
    assert_eq!(t.to_ptr().provenance(), Provenance::Alloc(2));
    assert_eq!(uval(u(40) + u(2)), 42);
}

#[test]
fn uptr_arithmetic() {
    assert_eq!(uval(u(10) - u(3)), 7);
    assert_eq!(uval(u(0) - u(1)), usize::MAX);
    assert_eq!(uval(u(6) * u(7)), 42);
    assert_eq!(uval(u(43) / u(5)), 8);
    assert_eq!(uval(u(43) % u(5)), 3);
    assert_eq!(uval(u(0b1100) & u(0b1010)), 0b1000);
    assert_eq!(uval(u(0b1100) | u(0b1010)), 0b1110);
    assert_eq!(uval(u(0b1100) ^ u(0b1010)), 0b0110);
    assert_eq!(uval(u(3) << 4), 48);
    assert_eq!(uval(u(48) >> 4), 3);
    assert_eq!(uval(!u(0)), usize::MAX);
}

#[test]
fn uptr_wrapping_methods() {
    assert_eq!(uval(u(usize::MAX).wrapping_add(u(1))), 0);
    assert_eq!(uval(u(1).wrapping_sub(u(2))), usize::MAX);
    assert_eq!(uval(u(usize::MAX).wrapping_mul(u(2))), usize::MAX - 1);
    assert_eq!(uval(u(17).wrapping_div(u(4))), 4);
}

#[test]
fn uptr_assign_operators() {
    let mut x = u(5);
    x += u(10);
    assert_eq!(uval(x), 15);
    x -= u(3);
    assert_eq!(uval(x), 12);
    x *= u(4);
    assert_eq!(uval(x), 48);
    x &= u(0x30);
    assert_eq!(uval(x), 0x30);
    x |= u(1);
    assert_eq!(uval(x), 0x31);
    x ^= u(0x11);
    assert_eq!(uval(x), 0x20);
}

#[test]
fn iptr_arithmetic() {
    assert_eq!(ival(i(-1) + i(-2)), -3);
    assert_eq!(ival(i(isize::MAX) + i(1)), isize::MIN);
    assert_eq!(ival(i(3) - i(5)), -2);
    assert_eq!(ival(i(-6) * i(7)), -42);
    assert_eq!(ival(i(-7) / i(2)), -3);
    assert_eq!(ival(i(-7) % i(2)), -1);
    assert_eq!(ival(i(7) % i(-2)), 1);
    assert_eq!(ival(i(-8) >> 1), -4);
    assert_eq!(ival(i(-1) << 3), -8);
    assert_eq!(ival(!i(0)), -1);
    assert_eq!(ival(-i(5)), -5);
    assert_eq!(ival(-i(isize::MIN)), isize::MIN);
    assert_eq!(ival(i(-1) & i(6)), 6);
    assert_eq!(ival(i(-8) | i(3)), -5);
    assert_eq!(ival(i(-1) ^ i(1)), -2);
}

#[test]
fn iptr_wrapping_div_of_min_by_minus_one() {
    assert_eq!(ival(i(isize::MIN).wrapping_div(i(-1))), isize::MIN);
    assert_eq!(ival(i(-9).wrapping_div(i(2))), -4);
    assert_eq!(ival(i(isize::MIN).wrapping_sub(i(1))), isize::MAX);
    assert_eq!(ival(i(isize::MIN).wrapping_mul(i(-1))), isize::MIN);
    assert_eq!(ival(i(-2).wrapping_add(i(1))), -1);
}

#[test]
fn iptr_sum_keeps_left_provenance() {
    let a = iptr::from_ptr(ConstPtr::<u8>::from_parts(10, Provenance::Alloc(3)));
    let s = a + i(-4);
    assert_eq!(ival(s), 6);
    assert_eq!(s.to_ptr().provenance(), Provenance::Alloc(3));
    assert_eq!(i(-4).to_ptr().provenance(), Provenance::Empty);
}

#[test]
fn comparisons_follow_the_integers() {
    assert!(u(1) < u(2));
    assert!(u(usize::MAX) > u(0));
    assert!(i(-1) < i(0));
    assert!(i(isize::MIN) < i(isize::MAX));
    assert_eq!(u(3), uptr::from_ptr_mut(invalid_mut::<u8>(3)));
    assert_eq!(i(-1), iptr::from_int(-1));
    assert_ne!(i(1), i(2));
}

#[test]
fn conversions() {
    let x: uptr = 9usize.into();
    assert_eq!(uval(x), 9);
    let y: iptr = (-9isize).into();
    assert_eq!(ival(y), -9);
    let p = MutPtr::<u16>::from_parts(77, Provenance::Alloc(8));
    let z = uptr::from(p);
    assert_eq!(uval(z), 77);
    assert_eq!(z.to_ptr().provenance(), Provenance::Alloc(8));
    let w = iptr::from(p.cast_const());
    assert_eq!(ival(w), 77);
    assert_eq!(uptr::BITS, usize::BITS);
    assert_eq!(iptr::BITS, isize::BITS);
}

#[test]
fn min_and_max_values() {
    assert_eq!(uval(uptr::min_value()), 0);
    assert_eq!(uval(uptr::max_value()), usize::MAX);
    assert_eq!(ival(iptr::min_value()), isize::MIN);
    assert_eq!(ival(iptr::max_value()), isize::MAX);
    assert_eq!(iptr::max_value().to_ptr().provenance(), Provenance::Empty);
    assert_eq!(ival(iptr::max_value() + i(1)), isize::MIN);
}

#[test]
fn iptr_assign_operators_keep_left_provenance() {
    let mut x = iptr::from_ptr_mut(MutPtr::<u8>::from_parts(10, Provenance::Alloc(6)));
    x -= i(15);
    assert_eq!(ival(x), -5);
    x *= i(3);
    assert_eq!(ival(x), -15);
    x += i(isize::MAX);
    assert_eq!(ival(x), isize::MAX - 15);
    x &= i(0xff);
    assert_eq!(ival(x), 0xf0);
    x |= i(-256);
    assert_eq!(ival(x), -16);
    x ^= i(-1);
    assert_eq!(ival(x), 15);
    assert_eq!(x.to_ptr().provenance(), Provenance::Alloc(6));
}
