use sptr::{
    from_exposed_addr, from_exposed_addr_mut, invalid, invalid_mut, null, null_mut, ConstPtr,
    MutPtr, Provenance, Strict,
};

#[test]
fn invalid_then_addr_gives_the_address() {
    for a in [0usize, 1, 4096, usize::MAX] {
        assert_eq!(invalid::<u8>(a).addr(), a);
        assert_eq!(invalid_mut::<u64>(a).addr(), a);
        assert_eq!(invalid::<u8>(a).provenance(), Provenance::Empty);
    }
}

#[test]
fn invalid_zero_equals_null() {
    assert_eq!(invalid::<u32>(0), null::<u32>());
    assert_eq!(invalid_mut::<u32>(0), null_mut::<u32>());
    assert!(invalid_mut::<u32>(0).is_null());
    assert!(!invalid_mut::<u32>(8).is_null());
}

#[test]
fn equality_ignores_provenance() {
    let p = MutPtr::<u8>::from_parts(64, Provenance::Alloc(3));
    assert_eq!(p, invalid_mut::<u8>(64));
    assert_ne!(p, invalid_mut::<u8>(65));
}

#[test]
fn with_addr_keeps_provenance() {
    let p = MutPtr::<u16>::from_parts(100, Provenance::Alloc(7));
    let q = p.with_addr(42);
    assert_eq!(q.addr(), 42);
    assert_eq!(q.provenance(), Provenance::Alloc(7));

    let c = ConstPtr::<u16>::from_parts(5, Provenance::Alloc(2));
    let d = c.with_addr(usize::MAX);
    assert_eq!(d.addr(), usize::MAX);
    assert_eq!(d.provenance(), Provenance::Alloc(2));
}

#[test]
fn map_addr_matches_with_addr() {
    let p = MutPtr::<u8>::from_parts(0x80, Provenance::Alloc(9));
    let f = |a: usize| (a & !0xf) | 0x3;
    let mapped = p.map_addr(f);
    let moved = p.with_addr(f(p.addr()));
    assert_eq!(mapped, moved);
    assert_eq!(mapped.addr(), 0x83);
    assert_eq!(mapped.provenance(), moved.provenance());
}

#[test]
fn exposed_round_trip_keeps_address() {
    let p = ConstPtr::<u64>::from_parts(0x2000, Provenance::Alloc(4));
    let a = p.expose_addr();
    let q = from_exposed_addr::<u64>(a);
    assert_eq!(q, p);
    assert_eq!(q.addr(), 0x2000);
    assert_eq!(q.provenance(), Provenance::Exposed);
    assert_eq!(from_exposed_addr_mut::<u64>(a).addr(), 0x2000);
}

#[test]
fn offsets_wrap_around_the_address_space() {
    let p = invalid_mut::<u8>(usize::MAX);
    assert_eq!(p.wrapping_byte_add(1).addr(), 0);
    assert_eq!(p.wrapping_byte_offset(2).addr(), 1);
    assert_eq!(invalid::<u8>(0).wrapping_byte_offset(-1).addr(), usize::MAX);
}

#[test]
fn wrapping_offset_counts_elements() {
    let p = MutPtr::<u32>::from_parts(100, Provenance::Alloc(1));
    assert_eq!(p.wrapping_offset(3).addr(), 112);
    assert_eq!(p.wrapping_offset(-2).addr(), 92);
    assert_eq!(p.wrapping_offset(-2).provenance(), Provenance::Alloc(1));
    assert_eq!(invalid::<u64>(8).wrapping_offset(-2).addr(), usize::MAX - 7);
}

#[test]
fn casts_keep_address_and_provenance() {
    let p = MutPtr::<u32>::from_parts(12, Provenance::Alloc(5));
    let c = p.cast_const();
    assert_eq!(c.addr(), 12);
    assert_eq!(c.provenance(), Provenance::Alloc(5));
    let b = c.cast::<u8>().cast_mut();
    assert_eq!(b.addr(), 12);
    assert_eq!(b.provenance(), Provenance::Alloc(5));
    assert_eq!(p.cast::<u64>().addr(), 12);
}
