use kernel_addr::VirtualAddress;

#[test]
fn accepts_low_half_unchanged() {
    let a = VirtualAddress::try_new(0x0000_7fff_ffff_ffff).unwrap();
    assert_eq!(a.as_u64(), 0x0000_7fff_ffff_ffff);
    let b = VirtualAddress::try_new(0).unwrap();
    assert_eq!(b.as_u64(), 0);
    let c = VirtualAddress::try_new(0x0000_1234_5678_9abc).unwrap();
    assert_eq!(c.as_u64(), 0x0000_1234_5678_9abc);
}

#[test]
fn accepts_high_half_unchanged() {
    let a = VirtualAddress::try_new(0xffff_8000_0000_0000).unwrap();
    assert_eq!(a.as_u64(), 0xffff_8000_0000_0000);
    let b = VirtualAddress::try_new(0xffff_ffff_ffff_ffff).unwrap();
    assert_eq!(b.as_u64(), 0xffff_ffff_ffff_ffff);
}

#[test]
fn repairs_lone_sign_bit() {
    // bit 47 set, bits 48..64 clear: accepted after sign extension
    let a = VirtualAddress::try_new(0x0000_8000_0000_0000).unwrap();
    assert_eq!(a.as_u64(), 0xffff_8000_0000_0000);
    let b = VirtualAddress::try_new(0x0000_8000_dead_beef).unwrap();
    assert_eq!(b.as_u64(), 0xffff_8000_dead_beef);
    assert_eq!(b, VirtualAddress::truncate(0x0000_8000_dead_beef));
}

#[test]
fn rejects_other_patterns_reporting_the_field() {
    // bit 48 set: field is 2
    assert_eq!(VirtualAddress::try_new(0x0001_0000_0000_0000), Err(2));
    // bit 49 set: field is 4
    assert_eq!(VirtualAddress::try_new(0x0002_0000_0000_0000), Err(4));
    // bit 63 alone: field is the topmost field bit
    assert_eq!(VirtualAddress::try_new(0x8000_0000_0000_0000), Err(0x10000));
    // all field bits but the sign bit
    assert_eq!(VirtualAddress::try_new(0xffff_0000_0000_0000), Err(0x1fffe));
}

#[test]
fn truncate_is_idempotent() {
    for &v in &[
        0u64,
        0x0000_7fff_ffff_ffff,
        0x0000_8000_0000_0000,
        0x0001_0000_0000_0000,
        0x8000_0000_0000_0000,
        0xffff_ffff_ffff_ffff,
        0x1234_5678_9abc_def0,
    ] {
        let once = VirtualAddress::truncate(v);
        let twice = VirtualAddress::truncate(once.as_u64());
        assert_eq!(once, twice);
    }
}

#[test]
fn round_trip_through_raw_value() {
    for &v in &[
        0u64,
        0x0000_7fff_ffff_ffff,
        0x0000_8000_0000_0000,
        0xdead_beef_cafe_babe,
    ] {
        let a = VirtualAddress::truncate(v);
        assert_eq!(VirtualAddress::try_new(a.as_u64()), Ok(a));
    }
}

#[test]
fn new_scenarios() {
    assert_eq!(
        VirtualAddress::new(0x0000_7fff_ffff_ffff).as_u64(),
        0x0000_7fff_ffff_ffff
    );
    assert_eq!(
        VirtualAddress::new(0xffff_8000_0000_0000).as_u64(),
        0xffff_8000_0000_0000
    );
    assert_eq!(
        VirtualAddress::try_new(0x0000_8000_0000_0000),
        Ok(VirtualAddress::new(0xffff_8000_0000_0000))
    );
    assert!(VirtualAddress::try_new(0x0002_0000_0000_0000).is_err());
}

#[test]
fn zero_and_null() {
    let z = VirtualAddress::zero();
    assert_eq!(z.as_u64(), 0);
    assert!(z.is_null());
    assert!(!VirtualAddress::new(0x1000).is_null());
}

#[test]
fn const_new_unchecked_keeps_value() {
    let a = VirtualAddress::const_new_unchecked(0xffff_ffff_8000_0000);
    assert_eq!(a.as_u64(), 0xffff_ffff_8000_0000);
}

#[test]
fn set_overwrites() {
    let mut a = VirtualAddress::zero();
    a.set(0x0000_4000_0000_0000);
    assert_eq!(a.as_u64(), 0x0000_4000_0000_0000);
    a.set(0x0000_8000_0000_0000);
    assert_eq!(a.as_u64(), 0xffff_8000_0000_0000);
}

#[test]
fn try_set_reports_field_and_repair() {
    let mut a = VirtualAddress::new(5);
    assert_eq!(a.try_set(0x0000_2000_0000_0000), Ok(()));
    assert_eq!(a.as_u64(), 0x0000_2000_0000_0000);
    // bit 49 set, bit 47 clear: field 4, repair clears the whole upper field
    assert_eq!(a.try_set(0x0002_0000_0000_1234), Err((4, 0x1234)));
    assert_eq!(a.as_u64(), 0x0000_2000_0000_0000);
}

#[test]
fn alignment_getters() {
    let a = VirtualAddress::new(0x0000_1000_0000_1234);
    assert_eq!(
        a.align_down_and_get(0x1000).as_u64(),
        0x0000_1000_0000_1000
    );
    assert_eq!(a.align_up_and_get(0x1000).as_u64(), 0x0000_1000_0000_2000);
    let b = VirtualAddress::new(0x2000);
    assert_eq!(b.align_up_and_get(0x1000), b);
    assert_eq!(b.align_down_and_get(0x1000), b);
}

#[test]
fn alignment_setters() {
    let mut a = VirtualAddress::new(0x0000_1000_0000_1234);
    a.align_up_and_set(0x200);
    assert_eq!(a.as_u64(), 0x0000_1000_0000_1400);
    a.align_down_and_set(0x1000);
    assert_eq!(a.as_u64(), 0x0000_1000_0000_1000);
}

#[test]
fn aligned_iff_divisible() {
    let mut a = VirtualAddress::new(0x3000);
    assert!(a.is_aligned(0x1000));
    assert!(a.is_aligned(0x8));
    let mut b = VirtualAddress::new(0x3008);
    assert!(!b.is_aligned(0x1000));
    assert!(b.is_aligned(8));
}

#[test]
fn arithmetic() {
    let a = VirtualAddress::new(0x1000);
    assert_eq!(a.add(0x234).as_u64(), 0x1234);
    assert_eq!(a.sub(0x800).as_u64(), 0x800);
    let mut b = a;
    b.add_assign(0x1000);
    assert_eq!(b.as_u64(), 0x2000);
    b.sub_assign(0x500);
    assert_eq!(b.as_u64(), 0x1b00);
    assert_eq!(b.sub_addr(a), 0xb00);
}

#[test]
fn offset_past_the_field_is_rejected_not_wrapped() {
    // a canonical address plus an offset that sets bit 48 of the sum:
    // validation reports the field instead of storing a wrapped value
    let a = VirtualAddress::new(0x0000_7fff_ffff_f000);
    let sum = a.as_u64() + 0x0001_0000_0000_0000;
    assert_eq!(VirtualAddress::try_new(sum), Err(2));
    let mut b = a;
    assert!(b.try_set(sum).is_err());
    assert_eq!(b, a);
}
