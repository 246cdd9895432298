use winstate::geometry::to_logical;
use winstate::geometry::to_logical_offset;
use winstate::geometry::to_physical;
use winstate::geometry::to_physical_offset;
use winstate::LogicalPx;
use winstate::ScaleFactor;

#[test]
fn round_trip_reproduces_physical_exactly() {
    // For all resolutions and scale factors, converting to logical units
    // and back reproduces the physical size; tried on a sample here.
    let cases = [
        (800u32, 2u32, 1u32),
        (600, 2, 1),
        (1, 3, 2),
        (1365, 3, 2),
        (0, 7, 5),
        (4096, 5, 4),
        (u32::MAX, 65536, 1),
    ];
    for (physical, num, den) in cases {
        let s = ScaleFactor::new(num, den);
        let l = to_logical(physical, s);
        assert_eq!(to_physical(l, s), physical);
    }
}

#[test]
fn to_logical_is_exact_division() {
    let s = ScaleFactor::new(2, 1);
    let l = to_logical(800, s);
    assert_eq!(l.numerator(), 800);
    assert_eq!(l.denominator(), 2);
    assert!(l.same_value(&LogicalPx::from_pixels(400)));
}

#[test]
fn to_physical_rounds_to_nearest() {
    // 10 logical pixels at 1.5 is exactly 15 physical pixels.
    let s = ScaleFactor::new(3, 2);
    assert_eq!(to_physical(LogicalPx::from_pixels(10), s), 15);
    // 5 logical pixels at 1.5 is 7.5, which rounds up to 8.
    assert_eq!(to_physical(LogicalPx::from_pixels(5), s), 8);
}

#[test]
fn to_physical_offset_rounds_half_away_from_zero() {
    let s = ScaleFactor::new(3, 2);
    assert_eq!(to_physical_offset(5, s), 8);
    assert_eq!(to_physical_offset(-5, s), -8);
    assert_eq!(to_physical_offset(0, s), 0);
}

#[test]
fn to_logical_offset_keeps_sign() {
    let s = ScaleFactor::new(2, 1);
    let l = to_logical_offset(-100, s);
    assert_eq!(l.numerator(), -100);
    assert_eq!(l.denominator(), 2);
}

#[test]
fn floor_px_truncates() {
    let s = ScaleFactor::new(2, 1);
    // 7 physical pixels at scale 2 is 3.5 logical pixels; the floor is 3.
    let l = to_logical(7, s);
    assert_eq!(l.floor_px(), 3);
    assert_eq!(LogicalPx::from_pixels(9).floor_px(), 9);
}

#[test]
fn same_ratio_ignores_representation() {
    let a = ScaleFactor::new(2, 1);
    let b = ScaleFactor::new(4, 2);
    let c = ScaleFactor::new(3, 2);
    assert!(a.same_ratio(&b));
    assert!(!a.same_ratio(&c));
}
