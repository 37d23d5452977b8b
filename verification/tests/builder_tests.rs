use geometry::builder::CircleBuilder;
use geometry::shapes::{Circle, Shape, SCALE};

#[test]
fn builder_defaults_to_origin_and_unit_radius() {
    let b = CircleBuilder::new();
    assert_eq!(b.x, 0);
    assert_eq!(b.y, 0);
    assert_eq!(b.radius, SCALE);
}

#[test]
fn builder_default_finalize_area_is_pi() {
    let area = CircleBuilder::new().finalize().area();
    assert_eq!(area, 3_141_592_653);
    let got = area as f64 / SCALE as f64;
    assert!((got - std::f64::consts::PI).abs() <= 1e-9 * std::f64::consts::PI);
}

#[test]
fn builder_sets_only_the_named_field() {
    let b = CircleBuilder::new().set_x(3 * SCALE).set_radius(10 * SCALE);
    let c = b.finalize();
    assert_eq!(c.center_x, 3 * SCALE);
    assert_eq!(c.center_y, 0);
    assert_eq!(c.radius, 10 * SCALE);
}

#[test]
fn builder_setter_order_is_irrelevant_for_disjoint_fields() {
    let first = CircleBuilder::new().set_x(3 * SCALE).set_radius(10 * SCALE).finalize();
    let second = CircleBuilder::new().set_radius(10 * SCALE).set_x(3 * SCALE).finalize();
    assert_eq!(first, second);
    assert_eq!(first, Circle::new(3 * SCALE, 0, 10 * SCALE));
    assert_eq!(first.area(), second.area());
}

#[test]
fn builder_chain_example_area() {
    let area = CircleBuilder::new().set_x(3 * SCALE).set_radius(10 * SCALE).finalize().area();
    assert_eq!(area, 314_159_265_358);
    let got = area as f64 / SCALE as f64;
    let want = 314.159265358979f64;
    assert!((got - want).abs() <= 1e-9 * want);
}

#[test]
fn builder_set_y_and_overwrite() {
    let b = CircleBuilder::new().set_y(7 * SCALE).set_y(-4 * SCALE);
    assert_eq!(b.y, -4 * SCALE);
    assert_eq!(b.x, 0);
    assert_eq!(b.radius, SCALE);
}

#[test]
fn builder_finalize_twice_snapshots_current_state() {
    let b = CircleBuilder::new().set_radius(2 * SCALE);
    let first = b.finalize();
    let second = b.finalize();
    assert_eq!(first, second);
    let later = b.set_radius(3 * SCALE).finalize();
    assert_eq!(first.radius, 2 * SCALE);
    assert_eq!(later.radius, 3 * SCALE);
}
