use smt::{i32c_to_u64, i32x2_to_u64, u64_to_i32x2};

#[test]
fn test() {
    println!("{:#?}", u64_to_i32x2(17607058970));
}

#[test]
fn r() {
    println!("{:#?}", i32x2_to_u64(4, 427189786));
}

#[test]
fn halves_of_an_identifier() {
    assert_eq!(u64_to_i32x2(17607058970), (4, 427189786));
    assert_eq!(i32x2_to_u64(4, 427189786), 17607058970);
    assert_eq!(u64_to_i32x2(0), (0, 0));
    assert_eq!(u64_to_i32x2(u64::MAX), (-1, -1));
    assert_eq!(u64_to_i32x2(0x8000_0000), (0, i32::MIN));
    assert_eq!(i32c_to_u64((i32::MIN, -1)), 0x8000_0000_ffff_ffff);
}

#[test]
fn halves_lead_back() {
    for id in [0u64, 1, 0x7fff_ffff, 0x8000_0000, 0xffff_ffff, 0x1_0000_0000, u64::MAX] {
        let (high, low) = u64_to_i32x2(id);
        assert_eq!(i32x2_to_u64(high, low), id);
        assert_eq!(i32c_to_u64((high, low)), id);
    }
    assert_ne!(i32x2_to_u64(1, 0), i32x2_to_u64(0, 1));
}
