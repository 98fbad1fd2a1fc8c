use fastnum::D64;
use sim::util::math::{ConvertToScalar, Vec2};
use sim::util::scalar::Scalar;

fn sc(x: f64) -> Scalar {
    Scalar::from_decimal(D64::from_f64(x)).unwrap()
}

fn pi() -> Scalar {
    Scalar::pi()
}

fn vec2(x: f64, y: f64) -> Vec2 {
    Vec2::new(sc(x), sc(y))
}

#[test]
fn vec2_new_should_create_vector_with_correct_components() {
    // Arrange
    let x = sc(1.0);
    let y = sc(2.0);

    // Act
    let v = Vec2::new(x, y);

    // Assert
    assert_eq!(v.x, x);
    assert_eq!(v.y, y);
}

#[test]
fn vec2_zero_should_return_zero_vector() {
    // Arrange & Act
    let v = Vec2::zero();

    // Assert
    assert_eq!(v.x, sc(0.0));
    assert_eq!(v.y, sc(0.0));
}

#[test]
fn vec2_new_from_angle_should_create_vector_from_polar_coordinates() {
    // Arrange
    let magnitude = sc(1.0);
    let angle = sc(0.0); // 0 radians

    // Act
    let v = Vec2::new_from_angle(magnitude, angle).unwrap();

    // Assert
    assert_eq!(v.x, sc(1.0)); // cos(0) = 1
    assert_eq!(v.y, sc(0.0)); // sin(0) = 0

    // Arrange for second case
    let angle_pi_half = pi().div(sc(2.0)).unwrap(); // pi/2 radians

    // Act
    let v_pi_half = Vec2::new_from_angle(magnitude, angle_pi_half).unwrap();

    // Assert
    assert_eq!(v_pi_half.x, angle_pi_half.cos().unwrap());
    assert_eq!(v_pi_half.y, angle_pi_half.sin().unwrap());
}

#[test]
fn vec2_dot_should_compute_dot_product() {
    // Arrange
    let v1 = vec2(1.0, 2.0);
    let v2 = vec2(3.0, 4.0);

    // Act
    let result = v1.dot(&v2).unwrap();

    // Assert
    assert_eq!(result, sc(1.0 * 3.0 + 2.0 * 4.0)); // 3 + 8 = 11
}

#[test]
fn vec2_cross_should_compute_cross_product() {
    // Arrange
    let v1 = vec2(1.0, 0.0);
    let v2 = vec2(0.0, 1.0);

    // Act
    let result = v1.cross(v2).unwrap();

    // Assert
    assert_eq!(result, sc(1.0)); // 1*1 - 0*0 = 1
}

#[test]
fn vec2_length_squared_should_compute_squared_length() {
    // Arrange
    let v = vec2(3.0, 4.0);

    // Act
    let result = v.length_squared().unwrap();

    // Assert
    assert_eq!(result, sc(3.0 * 3.0 + 4.0 * 4.0)); // 9 + 16 = 25
}

#[test]
fn vec2_rotate_should_rotate_vector_by_angle() {
    // Arrange
    let v = vec2(1.0, 0.0);
    let angle_90 = pi().div(sc(2.0)).unwrap();
    let angle_180 = pi();

    // Act
    let rotated_90 = v.rotate(angle_90).unwrap();

    // Assert
    assert_eq!(rotated_90.x, angle_90.cos().unwrap());
    assert_eq!(rotated_90.y, angle_90.sin().unwrap());

    // Act for second case
    let rotated_180 = v.rotate(angle_180).unwrap();

    // Assert
    assert_eq!(rotated_180.x, angle_180.cos().unwrap());
    assert_eq!(rotated_180.y, angle_180.sin().unwrap());
}

#[test]
fn vec2_normalize_should_return_unit_vector() {
    // Arrange
    let v = vec2(3.0, 4.0);

    // Act
    let normalized = v.normalize().unwrap();

    // Assert
    let expected_x = sc(3.0).div(sc(5.0)).unwrap();
    let expected_y = sc(4.0).div(sc(5.0)).unwrap();
    assert_eq!(normalized.x, expected_x);
    assert_eq!(normalized.y, expected_y);
    assert_eq!(normalized.length_squared().unwrap(), sc(1.0));
}

#[test]
fn vec2_to_polar_should_convert_to_polar_coordinates() {
    // Arrange
    let v = vec2(1.0, 1.0);

    // Act
    let (magnitude, angle) = v.to_polar().unwrap();

    // Assert
    assert_eq!(magnitude, sc(2.0).sqrt().unwrap());
    // For a 45-degree angle, cos(angle) must equal sin(angle).
    assert_eq!(angle.cos().unwrap(), angle.sin().unwrap());

    // Arrange for second case
    let v2 = vec2(-1.0, 0.0);

    // Act
    let (magnitude2, angle2) = v2.to_polar().unwrap();

    // Assert
    assert_eq!(magnitude2, sc(1.0));
    assert_eq!(angle2, pi());
}

#[test]
fn vec2_normalize_of_zero_vector_fails() {
    assert_eq!(Vec2::zero().normalize(), None);
    assert_eq!(vec2(0.0, 0.0).normalize(), None);
}

#[test]
fn vec2_add_and_sub_work_by_component() {
    let a = vec2(1.5, -2.0);
    let b = vec2(0.25, 4.0);
    assert_eq!(a.add(&b), Some(vec2(1.75, 2.0)));
    assert_eq!(a.sub(&b), Some(vec2(1.25, -6.0)));
    assert_ne!(a.add(&b), Some(a));
}

#[test]
fn vec2_length_of_three_four_is_five() {
    assert_eq!(vec2(3.0, 4.0).length(), Some(sc(5.0)));
    assert_eq!(vec2(-4.0, 3.0).to_polar().unwrap().0, sc(5.0));
}

#[test]
fn vec2_rotate_by_zero_keeps_the_vector() {
    let v = vec2(2.0, -7.0);
    assert_eq!(v.rotate(sc(0.0)), Some(v));
}

#[test]
fn vec2_cross_is_signed() {
    let a = vec2(2.0, 3.0);
    let b = vec2(5.0, 7.0);
    assert_eq!(a.cross(b), Some(sc(-1.0)));
    assert_eq!(b.cross(a), Some(sc(1.0)));
}

#[test]
fn vec2_operations_give_the_same_result_every_time() {
    let v = vec2(0.3, 1.7);
    let w = vec2(-2.9, 0.01);
    let angle = sc(0.7);
    assert_eq!(v.rotate(angle), v.rotate(angle));
    assert_eq!(v.normalize(), v.normalize());
    assert_eq!(v.to_polar(), v.to_polar());
    assert_eq!(v.dot(&w), v.dot(&w));
    assert_eq!(
        v.rotate(angle).unwrap().x.to_decimal(),
        v.rotate(angle).unwrap().x.to_decimal()
    );
}

#[test]
fn scalar_from_u32_is_the_integer() {
    assert_eq!(5u32.to_scalar(), sc(5.0));
    assert_eq!(0u32.to_scalar(), sc(0.0));
    assert_ne!(5u32.to_scalar(), sc(0.0));
    assert_eq!(Scalar::from_u32(4_000_000_000).to_u32(), Some(4_000_000_000));
}

#[test]
fn scalar_arithmetic_gives_exact_decimals() {
    assert_eq!(sc(1.0).add(sc(2.0)), Some(sc(3.0)));
    assert_eq!(sc(5.0).sub(sc(3.0)), Some(sc(2.0)));
    assert_eq!(sc(2.0).mul(sc(3.0)), Some(sc(6.0)));
    assert_eq!(sc(6.0).div(sc(3.0)), Some(sc(2.0)));
    assert_eq!(sc(1.0).div(sc(4.0)), Some(sc(0.25)));
    assert_eq!(sc(16.0).sqrt(), Some(sc(4.0)));
    assert_eq!(sc(0.0).cos(), Some(sc(1.0)));
    assert_eq!(sc(0.0).sin(), Some(sc(0.0)));
    assert_ne!(sc(1.0).sin(), Some(sc(1.0)));
    assert_eq!(sc(0.0).atan2(sc(-1.0)), Some(pi()));
    assert_eq!(sc(0.0).atan2(sc(1.0)), Some(sc(0.0)));
}

#[test]
fn scalar_floor_rounds_down() {
    assert_eq!(sc(2.5).floor(), Some(sc(2.0)));
    assert_eq!(sc(-2.5).floor(), Some(sc(-3.0)));
    assert_eq!(sc(7.0).floor(), Some(sc(7.0)));
}

#[test]
fn scalar_to_u32_takes_whole_numbers_in_range() {
    assert_eq!(sc(7.0).to_u32(), Some(7));
    assert_eq!(sc(0.0).to_u32(), Some(0));
    assert_eq!(sc(-1.0).to_u32(), None);
    assert_eq!(sc(5_000_000_000.0).to_u32(), None);
}

#[test]
fn scalar_order_min_max_and_clamp() {
    assert_eq!(sc(1.0).order(sc(2.0)), -1);
    assert_eq!(sc(2.0).order(sc(1.0)), 1);
    assert_eq!(sc(2.0).order(sc(2.0)), 0);
    assert!(sc(1.0).le(sc(1.0)));
    assert!(!sc(1.5).le(sc(1.0)));
    assert_eq!(sc(1.0).min(sc(2.0)), sc(1.0));
    assert_eq!(sc(2.0).min(sc(1.0)), sc(1.0));
    assert_eq!(sc(1.0).max(sc(2.0)), sc(2.0));
    assert_eq!(sc(2.0).max(sc(1.0)), sc(2.0));
    assert_eq!(sc(-3.0).clamp(sc(-2.0), sc(1.0)), sc(-2.0));
    assert_eq!(sc(0.0).clamp(sc(-2.0), sc(1.0)), sc(0.0));
    assert_eq!(sc(2.0).clamp(sc(-2.0), sc(1.0)), sc(1.0));
}

#[test]
fn scalar_equality_is_by_value() {
    assert_eq!(sc(1.0), sc(1.0));
    assert_ne!(sc(1.0), sc(1.5));
    assert_eq!(sc(0.6).mul(sc(0.5)).unwrap(), sc(0.3));
}

#[test]
fn scalar_failures_come_back_as_none() {
    // division by zero
    assert_eq!(sc(1.0).div(sc(0.0)), None);
    // invalid operation
    assert_eq!(sc(-1.0).sqrt(), None);
    assert_eq!(sc(0.0).div(sc(0.0)), None);
    // overflow
    let max = Scalar::from_decimal(D64::MAX).unwrap();
    assert_eq!(max.mul(max), None);
    // values that are no numbers are not taken in
    assert_eq!(Scalar::from_decimal(D64::NAN), None);
    assert_eq!(Scalar::from_decimal(D64::INFINITY), None);
    assert_eq!(Scalar::from_decimal(D64::NEG_INFINITY), None);
}

#[test]
fn scalar_round_trips_through_decimal() {
    let d = D64::from_f64(12.375);
    assert_eq!(Scalar::from_decimal(d).unwrap().to_decimal(), d);
}

#[test]
fn vec2_operators_are_the_named_operations() {
    let a = vec2(1.5, -2.0);
    let b = vec2(0.25, 4.0);
    assert_eq!(a + b, a.add(&b));
    assert_eq!(a - b, a.sub(&b));
    assert_eq!(a + b, Some(vec2(1.75, 2.0)));
    assert_eq!(a - b, Some(vec2(1.25, -6.0)));
}

fn between(low: f64, value: Scalar, high: f64) -> bool {
    sc(low).le(value) && value.le(sc(high))
}

fn negative_zero() -> Scalar {
    let zero = Scalar::from_decimal(D64::ZERO.neg()).unwrap();
    assert!(zero.is_sign_negative());
    assert_eq!(zero.digits(), 0);
    zero
}

#[test]
fn scalar_atan2_on_the_axes_and_diagonals() {
    assert_eq!(sc(1.0).atan2(sc(1.0)), Scalar::from_decimal(D64::FRAC_PI_4));
    assert_eq!(sc(1.0).atan2(sc(0.0)), Scalar::from_decimal(D64::FRAC_PI_2));
    assert_eq!(sc(-1.0).atan2(sc(0.0)), Scalar::from_decimal(D64::FRAC_PI_2.neg()));
    assert_eq!(sc(0.0).atan2(sc(1.0)), Some(sc(0.0)));
    assert_eq!(sc(0.0).atan2(sc(-1.0)), Some(pi()));
    assert!(between(2.35, sc(2.0).atan2(sc(-2.0)).unwrap(), 2.36));
    assert!(between(-2.36, sc(-2.0).atan2(sc(-2.0)).unwrap(), -2.35));
    assert!(between(-0.79, sc(-2.0).atan2(sc(2.0)).unwrap(), -0.78));
    // the origin has no angle
    assert_eq!(sc(0.0).atan2(sc(0.0)), None);
    assert_eq!(Vec2::zero().to_polar(), None);
}

#[test]
fn scalar_atan2_in_every_octant() {
    // no steeper than the diagonals
    assert!(between(0.4636, sc(1.0).atan2(sc(2.0)).unwrap(), 0.4637));
    assert!(between(-0.4637, sc(-1.0).atan2(sc(2.0)).unwrap(), -0.4636));
    assert!(between(2.6779, sc(1.0).atan2(sc(-2.0)).unwrap(), 2.6780));
    assert!(between(-2.6780, sc(-1.0).atan2(sc(-2.0)).unwrap(), -2.6779));
    // steeper than the diagonals
    assert!(between(1.1071, sc(2.0).atan2(sc(1.0)).unwrap(), 1.1072));
    assert!(between(-1.1072, sc(-2.0).atan2(sc(1.0)).unwrap(), -1.1071));
    assert!(between(2.0344, sc(2.0).atan2(sc(-1.0)).unwrap(), 2.0345));
    assert!(between(-2.0345, sc(-2.0).atan2(sc(-1.0)).unwrap(), -2.0344));
    assert!(between(2.2142, sc(4.0).atan2(sc(-3.0)).unwrap(), 2.2143));
    assert!(between(-2.2143, sc(-4.0).atan2(sc(-3.0)).unwrap(), -2.2142));
    assert!(between(1.5697, sc(1000.0).atan2(sc(1.0)).unwrap(), 1.5698));
    assert!(between(1.5717, sc(1000.0).atan2(sc(-1.0)).unwrap(), 1.5718));
    // every angle lies above minus a half turn and at most at a half turn
    let coordinates = [-1000.0, -3.0, -1.0, -0.001, 0.0, 0.001, 1.0, 3.0, 1000.0];
    for y in coordinates {
        for x in coordinates {
            if x == 0.0 && y == 0.0 {
                continue;
            }
            let angle = sc(y).atan2(sc(x)).unwrap();
            assert!(angle.le(pi()));
            assert!(angle.order(Scalar::from_u32(0).sub(pi()).unwrap()) > 0);
            assert_eq!(angle.order(sc(0.0)) > 0, y > 0.0 || (y == 0.0 && x < 0.0));
            assert_eq!(angle.order(sc(0.0)) < 0, y < 0.0);
        }
    }
}

#[test]
fn scalar_atan2_takes_a_negative_zero_for_zero() {
    let zero = negative_zero();
    assert_eq!(zero.atan2(zero), None);
    assert_eq!(sc(0.0).atan2(zero), None);
    assert_eq!(zero.atan2(sc(0.0)), None);
    assert_eq!(sc(1.0).atan2(zero), Scalar::from_decimal(D64::FRAC_PI_2));
    assert_eq!(sc(-1.0).atan2(zero), Scalar::from_decimal(D64::FRAC_PI_2.neg()));
    // the negative horizontal axis is at a half turn, never at minus a half turn
    assert_eq!(zero.atan2(sc(-1.0)), Some(pi()));
    assert_eq!(zero.atan2(sc(1.0)), Some(sc(0.0)));
    let product = sc(-1.0).mul(sc(0.0)).unwrap();
    assert_eq!(product.atan2(product), None);
    assert_eq!(product.atan2(sc(-2.0)), Some(pi()));
    assert_eq!(sc(3.0).atan2(product), Scalar::from_decimal(D64::FRAC_PI_2));
    assert_eq!(Vec2::new(zero, zero).to_polar(), None);
    assert_eq!(Vec2::new(zero, zero).normalize(), None);
}

#[test]
fn vec2_to_polar_of_any_direction() {
    let (r, t) = vec2(-3.0, 4.0).to_polar().unwrap();
    assert_eq!(r, sc(5.0));
    assert!(between(2.2142, t, 2.2143));
    let (r, t) = vec2(-1.0, 2.0).to_polar().unwrap();
    assert_eq!(Some(r), sc(5.0).sqrt());
    assert!(between(2.0344, t, 2.0345));
    let (r, t) = vec2(0.0, -2.0).to_polar().unwrap();
    assert_eq!(r, sc(2.0));
    assert_eq!(Some(t), Scalar::from_decimal(D64::FRAC_PI_2.neg()));
    let (r, t) = vec2(-2.0, 0.0).to_polar().unwrap();
    assert_eq!(r, sc(2.0));
    assert_eq!(t, pi());
}

#[test]
fn scalar_trigonometry_over_two_turns() {
    for step in -48..=48 {
        let angle = sc(step as f64 * 0.25);
        let sine = angle.sin().unwrap();
        let cosine = angle.cos().unwrap();
        assert!(between(-1.000001, sine, 1.000001));
        assert!(between(-1.000001, cosine, 1.000001));
        let unit = sine.mul(sine).unwrap().add(cosine.mul(cosine).unwrap()).unwrap();
        assert!(between(0.999999, unit, 1.000001));
    }
    assert!(sc(12.0).sin().is_some());
    assert!(sc(-12.0).sin().is_some());
    assert!(sc(12.0).cos().is_some());
    assert!(sc(-12.0).cos().is_some());
    // three quarters of a turn, a full turn, five radians
    assert!(between(-1.000001, sc(4.71238898038469).sin().unwrap(), -0.999999));
    assert!(between(0.999999, sc(6.283185307179586).cos().unwrap(), 1.000001));
    assert!(between(-0.958925, sc(5.0).sin().unwrap(), -0.958924));
    assert!(between(0.283662, sc(5.0).cos().unwrap(), 0.283663));
    assert!(between(0.656986, sc(7.0).sin().unwrap(), 0.656987));
    assert!(between(-0.9589243, sc(-5.0).sin().unwrap().mul(sc(-1.0)).unwrap(), -0.9589242));
    assert!(sc(0.000001).sin().is_some());
    assert!(Vec2::new(sc(1.0), sc(0.0)).rotate(sc(7.0)).is_some());
    assert!(Vec2::new_from_angle(sc(2.0), sc(5.0)).is_some());
    // beyond twelve radians no sine or cosine is computed
    assert_eq!(sc(12.5).sin(), None);
    assert_eq!(sc(100.0).sin(), None);
    assert_eq!(sc(-100.0).cos(), None);
    assert_eq!(Vec2::new(sc(1.0), sc(0.0)).rotate(sc(13.0)), None);
    assert_eq!(sc(1.0).sin(), sc(1.0).sin());
    assert_eq!(sc(-2.75).floor(), Some(sc(-3.0)));
    assert_eq!(sc(-0.5).floor(), Some(sc(-1.0)));
}

#[test]
fn scalar_results_stay_usable_after_a_chain() {
    // a product that is zero, used as a divisor afterwards
    let zero = sc(5.0).mul(sc(0.0)).unwrap();
    assert_eq!(sc(1.0).div(zero), None);
    // results of the trigonometric functions, used in further arithmetic
    let s = sc(1.0).sin().unwrap();
    let max = Scalar::from_decimal(D64::MAX).unwrap();
    assert!(s.mul(max).is_some());
    assert_eq!(s.div(sc(0.0)), None);
    assert_eq!(max.add(max), None);
    let root = sc(2.0).sqrt().unwrap();
    assert_eq!(root.div(sc(0.0)), None);
    let floor = sc(-2.5).floor().unwrap();
    assert_eq!(floor.div(sc(0.0)), None);
    assert_eq!(Scalar::from_u32(3).div(Scalar::from_u32(0)), None);
}

#[test]
fn scalar_pi_has_nineteen_digits() {
    let pi = Scalar::pi();
    assert_eq!(pi.digits(), 3141592653589793238);
    assert_eq!(pi.scale(), 18);
    assert!(!pi.is_sign_negative());
    assert_eq!(Some(pi), Scalar::from_decimal(D64::PI));
    assert_eq!(pi.to_decimal(), D64::PI);
    assert!(pi.is_angle_in_reach());
    assert!(pi.add(pi).unwrap().is_angle_in_reach());
    assert!(sc(3.14).le(pi) && pi.le(sc(3.15)));
}

#[test]
fn scalar_parts_can_be_read() {
    let n = Scalar::from_u32(1234);
    assert_eq!(n.digits(), 1234);
    assert_eq!(n.scale(), 0);
    assert!(!n.is_sign_negative());
    let zero = Scalar::from_u32(0);
    assert_eq!((zero.digits(), zero.scale(), zero.is_sign_negative()), (0, 0, false));
    let max = Scalar::from_u32(u32::MAX);
    assert_eq!((max.digits(), max.scale(), max.is_sign_negative()), (4294967295, 0, false));
    let d = Scalar::from_u32(5).div(Scalar::from_u32(4)).unwrap();
    assert_eq!((d.digits(), d.scale(), d.is_sign_negative()), (125, 2, false));
    let neg = Scalar::from_u32(0).sub(Scalar::from_u32(7)).unwrap();
    assert_eq!((neg.digits(), neg.scale(), neg.is_sign_negative()), (7, 0, true));
}
