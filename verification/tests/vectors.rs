use n3d::fixed::Fixed;
use n3d::vector::{Vector2, Vector3};

fn fx(units: i64) -> Fixed {
    Fixed::from_units(units)
}

fn v3(x: i64, y: i64, z: i64) -> Vector3 {
    Vector3::new(fx(x), fx(y), fx(z))
}

#[test]
fn vec2_componentwise_arithmetic() {
    let a = Vector2::new(fx(10_000), fx(20_000));
    let b = Vector2::new(fx(30_000), fx(40_000));
    let sum = a.add(b);
    assert_eq!((sum.x.units, sum.y.units), (40_000, 60_000));
    let diff = b.sub(a);
    assert_eq!((diff.x.units, diff.y.units), (20_000, 20_000));
    let scaled = Vector2::new(fx(15_000), fx(20_000)).scale(Fixed::from_int(2));
    assert_eq!((scaled.x.units, scaled.y.units), (30_000, 40_000));
}

#[test]
fn vec3_componentwise_arithmetic() {
    let a = v3(10_000, 20_000, 30_000);
    let b = v3(5_000, 5_000, 5_000);
    let sum = a.add(b);
    assert_eq!((sum.x.units, sum.y.units, sum.z.units), (15_000, 25_000, 35_000));
    let diff = a.sub(b);
    assert_eq!((diff.x.units, diff.y.units, diff.z.units), (5_000, 15_000, 25_000));
}

#[test]
fn dot_product_of_one_two_three_with_itself_is_fourteen() {
    let v = v3(10_000, 20_000, 30_000);
    assert_eq!(v.dot(&v).units, 140_000);
}

#[test]
fn cross_product_follows_the_right_hand_rule() {
    let x = v3(10_000, 0, 0);
    let y = v3(0, 10_000, 0);
    let c = x.cross(&y);
    assert_eq!((c.x.units, c.y.units, c.z.units), (0, 0, 10_000));
    let back = y.cross(&x);
    assert_eq!((back.x.units, back.y.units, back.z.units), (0, 0, -10_000));
}
