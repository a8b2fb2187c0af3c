use intentional::Cast;
use intentional::CastFrom;
use intentional::CastInto;

#[test]
fn identity_casts_are_lossless() {
    assert_eq!(u8::from_cast(200u8), 200);
    assert_eq!(i8::from_cast(-128i8), -128);
    assert_eq!(u128::from_cast(u128::MAX), u128::MAX);
    assert_eq!(5i32.cast::<i32>(), 5);
    let same: usize = 17usize.cast_into();
    assert_eq!(same, 17);
}

#[test]
fn widening_casts_preserve_the_value() {
    let casted: u16 = 1_u8.cast();
    assert_eq!(casted, 1);
    let wide: i64 = 5u32.cast_into();
    assert_eq!(wide, 5);
    assert_eq!(i128::from_cast(-3i16), -3);
    assert_eq!(u64::from_cast(9usize), 9);
}

#[test]
fn narrowing_truncates_like_two_complement() {
    assert_eq!(i8::from_cast(0x01ffu16), -1);
    assert_eq!(u8::from_cast(0x01ffu16), 0xff);
    assert_eq!(u8::from_cast(-1i8), 255);
    assert_eq!(u8::from_cast(511i128), 255);
    assert_eq!(i16::from_cast(0x1_8000u32), -0x8000);
    assert_eq!(u16::from_cast(0x1_0001u32), 1);
    assert_eq!(u8::from_cast(-300i16), 212);
    assert_eq!(i8::from_cast(-300i16), -44);
}

#[test]
fn round_trip_within_both_ranges() {
    let there: i8 = 100u16.cast();
    let back: u16 = there.cast();
    assert_eq!(back, 100);

    let there: u8 = 0i8.cast();
    let back: i8 = there.cast();
    assert_eq!(back, 0);

    let there: usize = 4096u64.cast();
    let back: u64 = there.cast();
    assert_eq!(back, 4096);
}

#[test]
fn pointer_sized_casts() {
    assert_eq!(usize::from_cast(7u64), 7);
    assert_eq!(isize::from_cast(-7i64), -7);
    let wide: i128 = (-9isize).cast_into();
    assert_eq!(wide, -9);
}
