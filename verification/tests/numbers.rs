use linbra::{Num, Zero};

#[test]
fn zero_values() {
    assert_eq!(u8::zero(), 0);
    assert_eq!(i32::zero(), 0);
    assert_eq!(u64::zero(), 0);
    assert_eq!(isize::zero(), 0);
}

#[test]
fn exact_arithmetic() {
    assert_eq!(200u8.add_num(55), 255);
    assert_eq!(5i8.sub_num(13), -8);
    assert_eq!(12u16.mul_num(12), 144);
    assert_eq!((-4i64).mul_num(-8), 32);
}

#[test]
fn equality_on_values() {
    assert!(7u32.eq_num(7));
    assert!(!7u32.eq_num(8));
    assert!((-1i16).eq_num(-1));
}
