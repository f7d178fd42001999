use sptr::OpaqueFnPtr;

#[test]
fn fn_box_keeps_the_address() {
    let f = OpaqueFnPtr::from_addr(0x4000);
    assert_eq!(f.addr(), 0x4000);
    assert_eq!(f, OpaqueFnPtr::from_addr(0x4000));
    assert_ne!(f, OpaqueFnPtr::from_addr(0x4001));
}

#[test]
fn fn_box_accepts_only_slot_sized_types() {
    assert!(OpaqueFnPtr::fits::<fn()>());
    assert!(OpaqueFnPtr::fits::<fn(u32) -> u64>());
    assert!(OpaqueFnPtr::fits::<usize>());
    assert!(!OpaqueFnPtr::fits::<u8>());
    assert!(!OpaqueFnPtr::fits::<[usize; 2]>());
    assert!(!OpaqueFnPtr::fits::<[u8; 8]>() || core::mem::align_of::<usize>() == 1);
}

#[test]
fn fn_box_equality_follows_the_address() {
    let a = OpaqueFnPtr::from_addr(0x10);
    let b = OpaqueFnPtr::from_addr(0x10);
    let c = OpaqueFnPtr::from_addr(0x20);
    assert_eq!(a == b, a.addr() == b.addr());
    assert_eq!(a == c, a.addr() == c.addr());
}
