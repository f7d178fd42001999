use sptr::{from_exposed_addr_mut, invalid_mut, null_mut, MutPtr, Provenance, Strict};

#[test]
fn test_overlay() {
    let null_ptr = null_mut::<u8>();
    let ptr = invalid_mut::<u8>(0);
    assert_eq!(ptr, null_ptr);

    let addr = ptr.addr();
    assert_eq!(addr, ptr.expose_addr());

    let new_ptr = ptr.map_addr(|a| a + 1);
    assert_eq!(new_ptr, ptr.wrapping_offset(1));

    let new_ptr = ptr.with_addr(3);
    assert_eq!(new_ptr, invalid_mut::<u8>(3));

    let mut x = 7u32;
    // The pointer a `&mut x` would give: some address in the allocation of `x`.
    let x_ptr = MutPtr::<u32>::from_parts(0x1000, Provenance::Alloc(1));
    let x_addr = x_ptr.expose_addr();
    let x_new_ptr = from_exposed_addr_mut::<u32>(x_addr);
    assert_eq!(x_new_ptr, x_ptr);
    assert_eq!(x_new_ptr.provenance(), Provenance::Exposed);
    assert_eq!(x_ptr.provenance(), Provenance::Alloc(1));

    x *= 3;
    x *= 5;
    x *= 13;
    x *= 17;
    assert_eq!(x, 7 * 3 * 5 * 13 * 17);
}
