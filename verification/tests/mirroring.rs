use gerber_viewer::{Mirroring, Scalar};

#[test]
pub fn test_mul_tuple_f32() {
    let mirroring = Mirroring {
        x: true,
        y: true,
    };

    let values = (10.0_f32, -10.0_f32);

    let result = mirroring * values;

    assert_eq!(result, (-10.0, 10.0));
}

#[test]
pub fn test_mul_tuple_f64() {
    let mirroring = Mirroring {
        x: true,
        y: true,
    };

    let values = (10.0_f64, -10.0_f64);

    let result = mirroring * values;

    assert_eq!(result, (-10.0_f64, 10.0_f64));
}

#[test]
fn mul_negates_only_the_mirrored_coordinate() {
    let only_x = Mirroring { x: true, y: false };
    assert_eq!(only_x * (3_i64, 4_i64), (-3, 4));
    let only_y = Mirroring { x: false, y: true };
    assert_eq!(only_y * (3_i64, 4_i64), (3, -4));
    let none = Mirroring::default();
    assert_eq!(none * (3.5_f64, -4.5_f64), (3.5, -4.5));
}

#[test]
fn mul_applies_to_scalars() {
    let mirroring = Mirroring { x: true, y: false };
    let (x, y) = mirroring * (Scalar::new(1_500_000), Scalar::new(-2_000_000));
    assert_eq!(x.raw(), -1_500_000);
    assert_eq!(y.raw(), -2_000_000);
}

#[test]
fn as_i8_gives_the_signs() {
    assert_eq!(Mirroring { x: false, y: false }.as_i8(), [1, 1]);
    assert_eq!(Mirroring { x: true, y: false }.as_i8(), [-1, 1]);
    assert_eq!(Mirroring { x: false, y: true }.as_i8(), [1, -1]);
    assert_eq!(Mirroring { x: true, y: true }.as_i8(), [-1, -1]);
}

#[test]
fn xor_composes_mirrorings() {
    let a = Mirroring { x: true, y: false };
    let b = Mirroring { x: true, y: true };
    let c = a ^ b;
    assert!(!c.x);
    assert!(c.y);
    let twice = a ^ a;
    assert!(!twice.x && !twice.y);
}

#[test]
fn mirroring_from_flags_and_integers() {
    let from_bools: Mirroring = [true, false].into();
    assert!(from_bools.x && !from_bools.y);
    let from_ints: Mirroring = [0_i8, -1_i8].into();
    assert!(!from_ints.x && from_ints.y);
    let from_pair: Mirroring = (false, true).into();
    assert!(!from_pair.x && from_pair.y);
    let from_int_pair: Mirroring = (1_i8, 0_i8).into();
    assert!(from_int_pair.x && !from_int_pair.y);
}
