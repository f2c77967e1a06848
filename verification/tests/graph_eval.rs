use std::collections::HashMap;

use n3d::eval::{active_node_update, evaluate_input, evaluate_node, OutputsCache};
use n3d::fixed::Fixed;
use n3d::node_graph::{
    EvalError, Graph, N3DDataType, N3DNodeData, N3DNodeTemplate, N3DValueType, InputParamKind,
};
use n3d::vector::Vector3;

fn fx(units: i64) -> Fixed {
    Fixed::from_units(units)
}

fn scalar(units: i64) -> N3DValueType {
    N3DValueType::Scalar { value: fx(units) }
}

fn vec3(x: i64, y: i64, z: i64) -> N3DValueType {
    N3DValueType::Vec3 { value: Vector3::new(fx(x), fx(y), fx(z)) }
}

fn volume(text: &str) -> N3DValueType {
    N3DValueType::SDFVolume { value: String::from(text) }
}

fn spawn(graph: &mut Graph, template: N3DNodeTemplate) -> usize {
    graph.add_template_node(template)
}

fn eval_fresh(graph: &Graph, node: usize) -> Result<N3DValueType, EvalError> {
    let mut cache: OutputsCache = HashMap::new();
    evaluate_node(graph, node, &mut cache)
}

fn expect_scalar(r: Result<N3DValueType, EvalError>) -> i64 {
    match r {
        Ok(N3DValueType::Scalar { value }) => value.units,
        other => panic!("expected a scalar result, got {:?}", other),
    }
}

fn expect_volume(r: Result<N3DValueType, EvalError>) -> String {
    match r {
        Ok(N3DValueType::SDFVolume { value }) => value,
        other => panic!("expected a volume result, got {:?}", other),
    }
}

#[test]
fn scalar_add_of_constants() {
    let mut g = Graph::new();
    let id = spawn(&mut g, N3DNodeTemplate::ScalarAdd);
    assert!(g.set_input_value(id, "A", scalar(20_000)));
    assert!(g.set_input_value(id, "B", scalar(30_000)));
    assert_eq!(expect_scalar(eval_fresh(&g, id)), 50_000);
}

#[test]
fn scalar_sub_of_constants() {
    let mut g = Graph::new();
    let id = spawn(&mut g, N3DNodeTemplate::ScalarSub);
    assert!(g.set_input_value(id, "A", scalar(20_000)));
    assert!(g.set_input_value(id, "B", scalar(5_000)));
    assert_eq!(expect_scalar(eval_fresh(&g, id)), 15_000);
}

#[test]
fn new_vec3_feeding_dot_with_itself() {
    let mut g = Graph::new();
    let source = spawn(&mut g, N3DNodeTemplate::NewVec3);
    assert!(g.set_input_value(source, "x", scalar(10_000)));
    assert!(g.set_input_value(source, "y", scalar(20_000)));
    assert!(g.set_input_value(source, "z", scalar(30_000)));
    let dot = spawn(&mut g, N3DNodeTemplate::Vec3Dot);
    assert!(g.add_connection(source, "out", dot, "v1"));
    assert!(g.add_connection(source, "out", dot, "v2"));
    let mut cache: OutputsCache = HashMap::new();
    assert_eq!(expect_scalar(evaluate_node(&g, dot, &mut cache)), 140_000);
    assert_eq!(cache.len(), 2);
}

#[test]
fn diamond_evaluates_shared_node_once() {
    let mut g = Graph::new();
    let shared = spawn(&mut g, N3DNodeTemplate::NewScalar);
    assert!(g.set_input_value(shared, "value", scalar(20_000)));
    let double = spawn(&mut g, N3DNodeTemplate::ScalarAdd);
    assert!(g.add_connection(shared, "out", double, "A"));
    assert!(g.add_connection(shared, "out", double, "B"));
    let sink = spawn(&mut g, N3DNodeTemplate::ScalarAdd);
    assert!(g.add_connection(double, "out", sink, "A"));
    assert!(g.add_connection(shared, "out", sink, "B"));
    let mut cache: OutputsCache = HashMap::new();
    assert_eq!(expect_scalar(evaluate_node(&g, sink, &mut cache)), 60_000);
    // one cache entry per node, not per edge
    assert_eq!(cache.len(), 3);
}

#[test]
fn unconnected_port_falls_back_to_constant() {
    let mut g = Graph::new();
    let noise = spawn(&mut g, N3DNodeTemplate::NewScalar);
    assert!(g.set_input_value(noise, "value", scalar(420_000)));
    let id = spawn(&mut g, N3DNodeTemplate::ScalarAdd);
    assert!(g.set_input_value(id, "A", scalar(20_000)));
    assert!(g.set_input_value(id, "B", scalar(30_000)));
    assert_eq!(expect_scalar(eval_fresh(&g, id)), 50_000);
}

#[test]
fn evaluate_input_prefers_the_wire_and_falls_back_to_the_constant() {
    let mut g = Graph::new();
    let source = spawn(&mut g, N3DNodeTemplate::NewScalar);
    assert!(g.set_input_value(source, "value", scalar(70_000)));
    let sum = spawn(&mut g, N3DNodeTemplate::ScalarAdd);
    assert!(g.add_connection(source, "out", sum, "A"));
    assert!(g.set_input_value(sum, "B", scalar(30_000)));
    let mut cache: OutputsCache = HashMap::new();
    match evaluate_input(&g, sum, "A", &mut cache) {
        Ok(N3DValueType::Scalar { value }) => assert_eq!(value.units, 70_000),
        other => panic!("expected the wired value, got {:?}", other),
    }
    match evaluate_input(&g, sum, "B", &mut cache) {
        Ok(N3DValueType::Scalar { value }) => assert_eq!(value.units, 30_000),
        other => panic!("expected the stored constant, got {:?}", other),
    }
}

#[test]
fn try_to_vec3_on_scalar_fails_with_cast_error() {
    let err = scalar(10_000).try_to_vec3().unwrap_err();
    assert_eq!(
        err,
        EvalError::BadCast { found: N3DDataType::Scalar, wanted: N3DDataType::Vec3 }
    );
    assert_eq!(err.message(), "Invalid cast from scalar to vec3");
}

#[test]
fn try_to_vec3_on_vec3_returns_the_vector_unchanged() {
    let v = Vector3::new(fx(10_000), fx(20_000), fx(30_000));
    let got = N3DValueType::Vec3 { value: v }.try_to_vec3().unwrap();
    assert_eq!(got, v);
}

#[test]
fn try_to_scalar_round_trips() {
    assert_eq!(scalar(12_345).try_to_scalar().unwrap().units, 12_345);
    let err = vec3(0, 0, 0).try_to_scalar().unwrap_err();
    assert_eq!(
        err,
        EvalError::BadCast { found: N3DDataType::Vec3, wanted: N3DDataType::Scalar }
    );
}

#[test]
fn vec2_scalar_mul_scales_componentwise() {
    let mut g = Graph::new();
    let id = spawn(&mut g, N3DNodeTemplate::Vec2ScalarMul);
    assert!(g.set_input_value(id, "scalar", scalar(20_000)));
    assert!(g.set_input_value(
        id,
        "vector",
        N3DValueType::Vec2 { value: n3d::vector::Vector2::new(fx(15_000), fx(-5_000)) },
    ));
    match eval_fresh(&g, id) {
        Ok(N3DValueType::Vec2 { value }) => {
            assert_eq!((value.x.units, value.y.units), (30_000, -10_000));
        },
        other => panic!("expected a vec2 result, got {:?}", other),
    }
}

#[test]
fn sdf_box_emits_exact_volume_text() {
    let mut g = Graph::new();
    let id = spawn(&mut g, N3DNodeTemplate::SDFBox);
    assert!(g.set_input_value(id, "dimensions", vec3(4_000, 15_000, 5_000)));
    assert!(g.set_input_value(id, "fillet", scalar(500)));
    assert_eq!(
        expect_volume(eval_fresh(&g, id)),
        "sdf_box(p, vec3(0.35, 1.45, 0.45)) - 0.05"
    );
}

#[test]
fn sdf_union_wraps_two_volumes() {
    let mut g = Graph::new();
    let id = spawn(&mut g, N3DNodeTemplate::SDFUnion);
    assert!(g.set_input_value(id, "sdf 1", volume("sdf_sphere(p, 0.5)")));
    assert!(g.set_input_value(id, "sdf 2", volume("sdf_box(p, vec3(0.4,0.4,0.4)) - 0.1")));
    assert_eq!(
        expect_volume(eval_fresh(&g, id)),
        "op_union(sdf_sphere(p, 0.5), sdf_box(p, vec3(0.4,0.4,0.4)) - 0.1)"
    );
}

#[test]
fn sdf_translate_chain_reaches_the_box() {
    let mut g = Graph::new();
    let origin = spawn(&mut g, N3DNodeTemplate::SDFPosition);
    let shift = spawn(&mut g, N3DNodeTemplate::SDFTranslate);
    assert!(g.set_input_value(shift, "translation", vec3(5_000, 5_000, 5_000)));
    assert!(g.add_connection(origin, "out", shift, "sdf position"));
    let solid = spawn(&mut g, N3DNodeTemplate::SDFBox);
    assert!(g.set_input_value(solid, "dimensions", vec3(5_000, 5_000, 5_000)));
    assert!(g.set_input_value(solid, "fillet", scalar(500)));
    assert!(g.add_connection(shift, "out", solid, "sdf position"));
    assert_eq!(
        expect_volume(eval_fresh(&g, solid)),
        "sdf_box(translate(p, vec3(0.5, 0.5, 0.5)), vec3(0.45, 0.45, 0.45)) - 0.05"
    );
}

#[test]
fn viewer_without_connection_reports_an_execution_error() {
    let mut g = Graph::new();
    let viewer = spawn(&mut g, N3DNodeTemplate::SDFViewer);
    assert_eq!(eval_fresh(&g, viewer).unwrap_err(), EvalError::ViewerError);
    let frame = active_node_update(&g, Some(viewer));
    assert_eq!(frame.text.unwrap(), "Execution error: Viewer node error");
    assert!(frame.scene.is_none());
    assert_eq!(frame.active_node, Some(viewer));
}

#[test]
fn viewer_passes_a_connected_volume_through() {
    let mut g = Graph::new();
    let solid = spawn(&mut g, N3DNodeTemplate::SDFBox);
    assert!(g.set_input_value(solid, "dimensions", vec3(4_000, 15_000, 5_000)));
    assert!(g.set_input_value(solid, "fillet", scalar(500)));
    let viewer = spawn(&mut g, N3DNodeTemplate::SDFViewer);
    assert!(g.add_connection(solid, "out", viewer, "sdf"));
    let expected = "sdf_box(p, vec3(0.35, 1.45, 0.45)) - 0.05";
    assert_eq!(expect_volume(eval_fresh(&g, viewer)), expected);
    let frame = active_node_update(&g, Some(viewer));
    assert_eq!(frame.scene.unwrap(), expected);
    assert_eq!(
        frame.text.unwrap(),
        format!("The result is: SDFVolume {{ value: {} }}", expected)
    );
}

#[test]
fn evaluation_is_deterministic_across_fresh_caches() {
    let mut g = Graph::new();
    let source = spawn(&mut g, N3DNodeTemplate::NewVec3);
    assert!(g.set_input_value(source, "x", scalar(10_000)));
    assert!(g.set_input_value(source, "y", scalar(20_000)));
    assert!(g.set_input_value(source, "z", scalar(30_000)));
    let dot = spawn(&mut g, N3DNodeTemplate::Vec3Dot);
    assert!(g.add_connection(source, "out", dot, "v1"));
    assert!(g.add_connection(source, "out", dot, "v2"));
    let first = expect_scalar(eval_fresh(&g, dot));
    let second = expect_scalar(eval_fresh(&g, dot));
    assert_eq!(first, second);
    assert_eq!(first, 140_000);
}

#[test]
fn dangling_active_node_is_cleared() {
    let mut g = Graph::new();
    spawn(&mut g, N3DNodeTemplate::NewScalar);
    let frame = active_node_update(&g, Some(7));
    assert!(frame.text.is_none());
    assert!(frame.scene.is_none());
    assert!(frame.active_node.is_none());
}

#[test]
fn no_active_node_shows_nothing() {
    let g = Graph::new();
    let frame = active_node_update(&g, None);
    assert!(frame.text.is_none());
    assert!(frame.scene.is_none());
    assert!(frame.active_node.is_none());
}

#[test]
fn active_scalar_shows_its_result_text() {
    let mut g = Graph::new();
    let id = spawn(&mut g, N3DNodeTemplate::NewScalar);
    assert!(g.set_input_value(id, "value", scalar(50_000)));
    let frame = active_node_update(&g, Some(id));
    assert_eq!(frame.text.unwrap(), "The result is: Scalar { value: 5 }");
    assert!(frame.scene.is_none());
}

#[test]
fn cast_error_inside_a_graph_names_both_types() {
    let mut g = Graph::new();
    let source = spawn(&mut g, N3DNodeTemplate::NewScalar);
    let dot = spawn(&mut g, N3DNodeTemplate::Vec3Dot);
    assert!(g.add_connection(source, "out", dot, "v1"));
    assert_eq!(
        eval_fresh(&g, dot).unwrap_err(),
        EvalError::BadCast { found: N3DDataType::Scalar, wanted: N3DDataType::Vec3 }
    );
}

#[test]
fn missing_ports_are_reported_not_panicked() {
    let mut g = Graph::new();
    let bare = g.add_node(N3DNodeData { template: N3DNodeTemplate::ScalarAdd });
    assert_eq!(eval_fresh(&g, bare).unwrap_err(), EvalError::MissingInput);
    let mut h = Graph::new();
    let half = h.add_node(N3DNodeData { template: N3DNodeTemplate::NewScalar });
    h.add_input_param(
        half,
        String::from("value"),
        N3DDataType::Scalar,
        scalar(0),
        InputParamKind::ConnectionOrConstant,
    );
    assert_eq!(eval_fresh(&h, half).unwrap_err(), EvalError::MissingOutput);
}

#[test]
fn build_node_declares_the_template_ports() {
    let mut g = Graph::new();
    let add = spawn(&mut g, N3DNodeTemplate::ScalarAdd);
    let names: Vec<&str> = g.nodes[add].inputs.iter().map(|p| p.name.as_str()).collect();
    assert_eq!(names, ["A", "B"]);
    assert_eq!(g.nodes[add].outputs.len(), 1);
    assert_eq!(g.nodes[add].outputs[0].name, "out");
    let viewer = spawn(&mut g, N3DNodeTemplate::SDFViewer);
    assert_eq!(g.nodes[viewer].inputs.len(), 1);
    assert_eq!(g.nodes[viewer].inputs[0].kind, InputParamKind::ConnectionOnly);
    assert!(g.nodes[viewer].outputs.is_empty());
}

#[test]
fn all_kinds_lists_every_template() {
    let palette = n3d::node_graph::AllN3DNodeTemplates.all_kinds();
    assert_eq!(palette.len(), 17);
    assert!(matches!(palette[0], N3DNodeTemplate::NewScalar));
    assert!(matches!(palette[16], N3DNodeTemplate::SDFViewer));
}

#[test]
fn responses_drive_the_active_selection() {
    assert_eq!(n3d::node_graph::MyResponse::SetActiveNode(3).apply(), Some(3));
    assert_eq!(n3d::node_graph::MyResponse::ClearActiveNode.apply(), None);
}

#[test]
fn connection_to_a_missing_port_is_rejected() {
    let mut g = Graph::new();
    let a = spawn(&mut g, N3DNodeTemplate::NewScalar);
    let b = spawn(&mut g, N3DNodeTemplate::ScalarAdd);
    assert!(!g.add_connection(a, "out", b, "no such port"));
    assert!(!g.add_connection(a, "no such port", b, "A"));
    assert!(g.add_connection(a, "out", b, "A"));
}

#[test]
fn data_type_names_match_their_display() {
    assert_eq!(N3DDataType::Scalar.name(), "scalar");
    assert_eq!(N3DDataType::Vec2.name(), "vec2");
    assert_eq!(N3DDataType::Vec3.name(), "vec3");
    assert_eq!(N3DDataType::SDFPosition.name(), "SDF position");
    assert_eq!(N3DDataType::SDFVolume.name(), "SDF Volume");
}

#[test]
fn default_value_is_the_zero_scalar() {
    match N3DValueType::default() {
        N3DValueType::Scalar { value } => assert_eq!(value.units, 0),
        other => panic!("expected the zero scalar, got {:?}", other),
    }
}
