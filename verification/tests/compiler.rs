use n3d::fixed::Fixed;
use n3d::sdf::SDFBuilder;
use n3d::vector::Vector3;

fn fx(units: i64) -> Fixed {
    Fixed::from_units(units)
}

fn v3(x: i64, y: i64, z: i64) -> Vector3 {
    Vector3::new(fx(x), fx(y), fx(z))
}

fn fragments() -> Vec<String> {
    vec![String::from("one;"), String::from("two;")]
}

#[test]
fn box_constructor_applies_fillet_to_every_extent() {
    let text = SDFBuilder::p_box(None, v3(4_000, 15_000, 5_000), fx(500));
    assert_eq!(text, "sdf_box(p, vec3(0.35, 1.45, 0.45)) - 0.05");
}

#[test]
fn box_constructor_wraps_an_upstream_position() {
    let text = SDFBuilder::p_box(
        Some("translate(p, vec3(1, 0, 0))"),
        v3(5_000, 5_000, 5_000),
        fx(500),
    );
    assert_eq!(
        text,
        "sdf_box(translate(p, vec3(1, 0, 0)), vec3(0.45, 0.45, 0.45)) - 0.05"
    );
}

#[test]
fn cylinder_constructor_applies_fillet() {
    let text = SDFBuilder::p_cylinder(None, fx(20_000), fx(2_500), fx(500));
    assert_eq!(text, "sdf_cylinder(p, 1.95, 0.2) - 0.05");
}

#[test]
fn sphere_constructor_has_no_fillet() {
    assert_eq!(SDFBuilder::p_sphere(None, fx(5_000)), "sdf_sphere(p, 0.5)");
}

#[test]
fn translate_and_rotate_constructors() {
    assert_eq!(
        SDFBuilder::translate(None, v3(5_000, -5_000, -3_500)),
        "translate(p, vec3(0.5, -0.5, -0.35))"
    );
    assert_eq!(
        SDFBuilder::rotate(None, v3(450_000, 450_000, 0)),
        "rotate(p, vec3(45, 45, 0))"
    );
    assert_eq!(
        SDFBuilder::rotate(Some("translate(p, vec3(1, 1, 1))"), v3(450_000, 0, 0)),
        "rotate(translate(p, vec3(1, 1, 1)), vec3(45, 0, 0))"
    );
}

#[test]
fn accumulator_assembles_the_whole_program() {
    let built = SDFBuilder::new("P;", "D;", &fragments(), "M;").op_new("A").build();
    assert_eq!(built, "P;D;one;two;float scene(vec3 p) {\n    return A;}\n\nM;");
}

#[test]
fn build_is_repeatable_byte_for_byte() {
    let builder = SDFBuilder::new("P;", "D;", &fragments(), "M;")
        .op_new("A")
        .op_union("B")
        .op_diff_smooth("C", fx(500));
    assert_eq!(builder.build(), builder.build());
}

#[test]
fn union_wraps_the_scene_exactly_once() {
    let chained = SDFBuilder::new("P;", "D;", &fragments(), "M;").op_new("A").op_union("B");
    let direct = SDFBuilder::new("P;", "D;", &fragments(), "M;").op_new("op_union(A, B)");
    assert_eq!(chained.build(), direct.build());
}

#[test]
fn operator_chain_nests_left_to_right() {
    let chained = SDFBuilder::new("", "", &Vec::new(), "")
        .op_new("A")
        .op_diff("B")
        .op_int("C")
        .op_union_smooth("E", fx(2_500))
        .build();
    let direct = SDFBuilder::new("", "", &Vec::new(), "")
        .op_new("op_union_smooth(op_int(op_diff(A, B), C), E, 0.25)")
        .build();
    assert_eq!(chained, direct);
}

#[test]
fn smooth_operators_append_the_blend_radius() {
    let diff = SDFBuilder::new("", "", &Vec::new(), "").op_new("A").op_diff_smooth("B", fx(500));
    let direct = SDFBuilder::new("", "", &Vec::new(), "").op_new("op_diff_smooth(A, B, 0.05)");
    assert_eq!(diff.build(), direct.build());
    let int = SDFBuilder::new("", "", &Vec::new(), "").op_new("A").op_int_smooth("B", fx(500));
    let direct_int = SDFBuilder::new("", "", &Vec::new(), "").op_new("op_int_smooth(A, B, 0.05)");
    assert_eq!(int.build(), direct_int.build());
}
