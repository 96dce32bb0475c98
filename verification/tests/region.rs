use density_field::region::{AxisAlignedRect, Vector2};

#[test]
fn zero_vector_reads_back_as_positive_zero() {
    let v = Vector2::zero();
    assert_eq!(v.x_bits, 0.0f64.to_bits());
    assert_eq!(v.y_bits, 0.0f64.to_bits());
    assert_eq!(f64::from_bits(v.x_bits), 0.0);
    assert_eq!(f64::from_bits(v.y_bits), 0.0);
}

#[test]
fn vector_keeps_its_coordinate_bits() {
    let v = Vector2::new(1.5f64.to_bits(), (-2.25f64).to_bits());
    assert_eq!(f64::from_bits(v.x_bits), 1.5);
    assert_eq!(f64::from_bits(v.y_bits), -2.25);
}

#[test]
fn rectangle_keeps_its_origin_and_extents() {
    let r = AxisAlignedRect::new(
        (-2.5f64).to_bits(),
        (-2.5f64).to_bits(),
        5.0f64.to_bits(),
        5.0f64.to_bits(),
    );
    assert_eq!(f64::from_bits(r.x_bits), -2.5);
    assert_eq!(f64::from_bits(r.y_bits), -2.5);
    assert_eq!(f64::from_bits(r.w_bits), 5.0);
    assert_eq!(f64::from_bits(r.h_bits), 5.0);
}

#[test]
fn contains_is_false_for_every_point() {
    let r = AxisAlignedRect::new(
        0.0f64.to_bits(),
        0.0f64.to_bits(),
        10.0f64.to_bits(),
        10.0f64.to_bits(),
    );
    // even for a point that lies well inside the rectangle numerically
    assert!(!r.contains(Vector2::new(5.0f64.to_bits(), 5.0f64.to_bits())));
    assert!(!r.contains(Vector2::zero()));
    assert!(!r.contains(Vector2::new(f64::NAN.to_bits(), f64::INFINITY.to_bits())));
    let empty = AxisAlignedRect::new(
        0.0f64.to_bits(),
        0.0f64.to_bits(),
        0.0f64.to_bits(),
        0.0f64.to_bits(),
    );
    assert!(!empty.contains(Vector2::zero()));
}
