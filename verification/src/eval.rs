//! The graph evaluator.
//!
//! [`evaluate_node`] computes a node's value by recursively resolving each
//! declared input — the stored constant when the port is unwired, the
//! upstream node's output otherwise — and applying the template's pure
//! function. Every output computed along the way is recorded in the outputs
//! cache before it is returned, so a node referenced by several downstream
//! consumers is evaluated at most once per pass.
//!
//! The meaning of evaluation is given cache-free by [`spec_eval_node`]: a
//! recursive function over the graph alone. The evaluator's contract says
//! its result always equals that function of the graph — whatever coherent
//! cache it starts from — which is the determinism guarantee, and that the
//! cache only ever accumulates correct output values.

use std::collections::HashMap;

use vstd::prelude::*;
use vstd::string::*;

use crate::fixed::{spec_add, spec_mul, spec_sub, Fixed};
use crate::node_graph::{
    find_input_from, find_input_index, find_output_from, find_output_index,
    lemma_output_key_decode, output_key, result_view, scalar_result_view, template_output_decls,
    text_result_view, vec2_result_view, vec3_result_view, view_as_scalar, view_as_sdf_position,
    view_as_sdf_volume, view_as_vec2, view_as_vec3, EvalError, Graph, N3DNodeTemplate,
    N3DValueType, ValueView, PORT_SLOTS,
};
use crate::node_graph::node_ports_wf;
use crate::sdf::{spec_box_text, spec_translate_text, spec_union_text, SDFBuilder};
use crate::vector::{spec_dot, Vector2, Vector3};

verus! {

broadcast use vstd::std_specs::hash::group_hash_axioms;

/// The per-pass memo: every output value computed so far, keyed by output.
pub type OutputsCache = HashMap<u64, N3DValueType>;

/// The value an input resolves to: the stored constant when unwired, the
/// upstream node's result otherwise. A name the node does not declare is a
/// missing-input failure.
pub open spec fn spec_eval_input(g: Graph, n: int, name: Seq<char>) -> Result<
    ValueView,
    EvalError,
>
    decreases n, 0int,
{
    let inputs = g.nodes@[n].inputs@;
    match find_input_from(inputs, name, 0) {
        None => Err(EvalError::MissingInput),
        Some(i) => match inputs[i].connection {
            None => Ok(inputs[i].value@),
            Some(k) => {
                let un = k as int / PORT_SLOTS as int;
                if 0 <= un < n {
                    spec_eval_node(g, un)
                } else {
                    Err(EvalError::MissingInput)
                }
            },
        },
    }
}

/// An input resolved and cast to a scalar.
pub open spec fn spec_input_scalar(g: Graph, n: int, name: Seq<char>) -> Result<int, EvalError>
    decreases n, 1int,
{
    match spec_eval_input(g, n, name) {
        Ok(v) => view_as_scalar(v),
        Err(e) => Err(e),
    }
}

/// An input resolved and cast to a two-component vector.
pub open spec fn spec_input_vec2(g: Graph, n: int, name: Seq<char>) -> Result<
    (int, int),
    EvalError,
>
    decreases n, 1int,
{
    match spec_eval_input(g, n, name) {
        Ok(v) => view_as_vec2(v),
        Err(e) => Err(e),
    }
}

/// An input resolved and cast to a three-component vector.
pub open spec fn spec_input_vec3(g: Graph, n: int, name: Seq<char>) -> Result<
    (int, int, int),
    EvalError,
>
    decreases n, 1int,
{
    match spec_eval_input(g, n, name) {
        Ok(v) => view_as_vec3(v),
        Err(e) => Err(e),
    }
}

/// An input resolved and cast to a point-space expression.
pub open spec fn spec_input_sdf_position(g: Graph, n: int, name: Seq<char>) -> Result<
    Seq<char>,
    EvalError,
>
    decreases n, 1int,
{
    match spec_eval_input(g, n, name) {
        Ok(v) => view_as_sdf_position(v),
        Err(e) => Err(e),
    }
}

/// An input resolved and cast to a distance expression.
pub open spec fn spec_input_sdf_volume(g: Graph, n: int, name: Seq<char>) -> Result<
    Seq<char>,
    EvalError,
>
    decreases n, 1int,
{
    match spec_eval_input(g, n, name) {
        Ok(v) => view_as_sdf_volume(v),
        Err(e) => Err(e),
    }
}

/// A computed value becomes the node's result through its conventional
/// `out` port; a template wired to a node without one is a missing-output
/// failure.
pub open spec fn spec_finish(g: Graph, n: int, v: ValueView) -> Result<ValueView, EvalError> {
    match find_output_from(g.nodes@[n].outputs@, "out"@, 0) {
        Some(_) => Ok(v),
        None => Err(EvalError::MissingOutput),
    }
}

/// The cache-free meaning of evaluating node `n`: each template's pure
/// function applied to its resolved inputs, evaluated left to right with the
/// first failure propagated. Opaque for proof economy; the evaluator reveals
/// it where it steps through a template.
#[verifier::opaque]
pub open spec fn spec_eval_node(g: Graph, n: int) -> Result<ValueView, EvalError>
    decreases n, 2int,
{
    match g.nodes@[n].user_data.template {
        N3DNodeTemplate::NewScalar => match spec_input_scalar(g, n, "value"@) {
            Err(e) => Err(e),
            Ok(a) => spec_finish(g, n, ValueView::Scalar { value: a }),
        },
        N3DNodeTemplate::ScalarAdd => match spec_input_scalar(g, n, "A"@) {
            Err(e) => Err(e),
            Ok(a) => match spec_input_scalar(g, n, "B"@) {
                Err(e) => Err(e),
                Ok(b) => spec_finish(g, n, ValueView::Scalar { value: spec_add(a, b) }),
            },
        },
        N3DNodeTemplate::ScalarSub => match spec_input_scalar(g, n, "A"@) {
            Err(e) => Err(e),
            Ok(a) => match spec_input_scalar(g, n, "B"@) {
                Err(e) => Err(e),
                Ok(b) => spec_finish(g, n, ValueView::Scalar { value: spec_sub(a, b) }),
            },
        },
        N3DNodeTemplate::NewVec2 => match spec_input_scalar(g, n, "x"@) {
            Err(e) => Err(e),
            Ok(x) => match spec_input_scalar(g, n, "y"@) {
                Err(e) => Err(e),
                Ok(y) => spec_finish(g, n, ValueView::Vec2 { x, y }),
            },
        },
        N3DNodeTemplate::Vec2Add => match spec_input_vec2(g, n, "v1"@) {
            Err(e) => Err(e),
            Ok(v1) => match spec_input_vec2(g, n, "v2"@) {
                Err(e) => Err(e),
                Ok(v2) => spec_finish(
                    g,
                    n,
                    ValueView::Vec2 { x: spec_add(v1.0, v2.0), y: spec_add(v1.1, v2.1) },
                ),
            },
        },
        N3DNodeTemplate::Vec2Subtract => match spec_input_vec2(g, n, "v1"@) {
            Err(e) => Err(e),
            Ok(v1) => match spec_input_vec2(g, n, "v2"@) {
                Err(e) => Err(e),
                Ok(v2) => spec_finish(
                    g,
                    n,
                    ValueView::Vec2 { x: spec_sub(v1.0, v2.0), y: spec_sub(v1.1, v2.1) },
                ),
            },
        },
        N3DNodeTemplate::Vec2ScalarMul => match spec_input_scalar(g, n, "scalar"@) {
            Err(e) => Err(e),
            Ok(s) => match spec_input_vec2(g, n, "vector"@) {
                Err(e) => Err(e),
                Ok(v) => spec_finish(
                    g,
                    n,
                    ValueView::Vec2 { x: spec_mul(v.0, s), y: spec_mul(v.1, s) },
                ),
            },
        },
        N3DNodeTemplate::NewVec3 => match spec_input_scalar(g, n, "x"@) {
            Err(e) => Err(e),
            Ok(x) => match spec_input_scalar(g, n, "y"@) {
                Err(e) => Err(e),
                Ok(y) => match spec_input_scalar(g, n, "z"@) {
                    Err(e) => Err(e),
                    Ok(z) => spec_finish(g, n, ValueView::Vec3 { x, y, z }),
                },
            },
        },
        N3DNodeTemplate::Vec3Add => match spec_input_vec3(g, n, "v1"@) {
            Err(e) => Err(e),
            Ok(v1) => match spec_input_vec3(g, n, "v2"@) {
                Err(e) => Err(e),
                Ok(v2) => spec_finish(
                    g,
                    n,
                    ValueView::Vec3 {
                        x: spec_add(v1.0, v2.0),
                        y: spec_add(v1.1, v2.1),
                        z: spec_add(v1.2, v2.2),
                    },
                ),
            },
        },
        N3DNodeTemplate::Vec3Sub => match spec_input_vec3(g, n, "v1"@) {
            Err(e) => Err(e),
            Ok(v1) => match spec_input_vec3(g, n, "v2"@) {
                Err(e) => Err(e),
                Ok(v2) => spec_finish(
                    g,
                    n,
                    ValueView::Vec3 {
                        x: spec_sub(v1.0, v2.0),
                        y: spec_sub(v1.1, v2.1),
                        z: spec_sub(v1.2, v2.2),
                    },
                ),
            },
        },
        N3DNodeTemplate::Vec3Dot => match spec_input_vec3(g, n, "v1"@) {
            Err(e) => Err(e),
            Ok(v1) => match spec_input_vec3(g, n, "v2"@) {
                Err(e) => Err(e),
                Ok(v2) => spec_finish(
                    g,
                    n,
                    ValueView::Scalar { value: spec_dot(v1.0, v1.1, v1.2, v2.0, v2.1, v2.2) },
                ),
            },
        },
        N3DNodeTemplate::Vec3Cross => match spec_input_vec3(g, n, "v1"@) {
            Err(e) => Err(e),
            Ok(v1) => match spec_input_vec3(g, n, "v2"@) {
                Err(e) => Err(e),
                Ok(v2) => spec_finish(
                    g,
                    n,
                    ValueView::Vec3 {
                        x: spec_sub(spec_mul(v1.1, v2.2), spec_mul(v1.2, v2.1)),
                        y: spec_sub(spec_mul(v1.2, v2.0), spec_mul(v1.0, v2.2)),
                        z: spec_sub(spec_mul(v1.0, v2.1), spec_mul(v1.1, v2.0)),
                    },
                ),
            },
        },
        N3DNodeTemplate::SDFPosition => spec_finish(
            g,
            n,
            ValueView::SDFPosition { text: "p"@ },
        ),
        N3DNodeTemplate::SDFTranslate => match spec_input_vec3(g, n, "translation"@) {
            Err(e) => Err(e),
            Ok(t) => match spec_input_sdf_position(g, n, "sdf position"@) {
                Err(e) => Err(e),
                Ok(pos) => spec_finish(
                    g,
                    n,
                    ValueView::SDFPosition { text: spec_translate_text(pos, t.0, t.1, t.2) },
                ),
            },
        },
        N3DNodeTemplate::SDFBox => match spec_input_vec3(g, n, "dimensions"@) {
            Err(e) => Err(e),
            Ok(dim) => match spec_input_scalar(g, n, "fillet"@) {
                Err(e) => Err(e),
                Ok(fil) => match spec_input_sdf_position(g, n, "sdf position"@) {
                    Err(e) => Err(e),
                    Ok(pos) => spec_finish(
                        g,
                        n,
                        ValueView::SDFVolume {
                            text: spec_box_text(pos, dim.0, dim.1, dim.2, fil),
                        },
                    ),
                },
            },
        },
        N3DNodeTemplate::SDFUnion => match spec_input_sdf_volume(g, n, "sdf 1"@) {
            Err(e) => Err(e),
            Ok(s1) => match spec_input_sdf_volume(g, n, "sdf 2"@) {
                Err(e) => Err(e),
                Ok(s2) => spec_finish(
                    g,
                    n,
                    ValueView::SDFVolume { text: spec_union_text(s1, s2) },
                ),
            },
        },
        N3DNodeTemplate::SDFViewer => {
            let inputs = g.nodes@[n].inputs@;
            match find_input_from(inputs, "sdf"@, 0) {
                Some(i) => {
                    if inputs[i].connection is Some {
                        match spec_input_sdf_volume(g, n, "sdf"@) {
                            Ok(s) => Ok(ValueView::SDFVolume { text: s }),
                            Err(_) => Err(EvalError::ViewerError),
                        }
                    } else {
                        Err(EvalError::ViewerError)
                    }
                },
                None => Err(EvalError::ViewerError),
            }
        },
    }
}

/// `k` names an existing output port of an existing node.
pub open spec fn is_output_key(g: Graph, k: u64) -> bool {
    let n = k as int / PORT_SLOTS as int;
    let p = k as int % PORT_SLOTS as int;
    &&& n < g.nodes@.len()
    &&& p < g.nodes@[n].outputs@.len()
}

/// Cache coherence: every recorded entry is the value evaluation assigns to
/// that output.
pub open spec fn cache_wf(g: Graph, m: Map<u64, N3DValueType>) -> bool {
    forall|k: u64| #[trigger]
        m.contains_key(k) ==> {
            &&& is_output_key(g, k)
            &&& spec_eval_node(g, k as int / PORT_SLOTS as int) == Ok::<ValueView, EvalError>(
                m[k]@,
            )
        }
}

/// The cache only grows: every entry present before is still present with
/// the same value, and anything new is an output key of the graph — the
/// at-most-once bookkeeping.
pub open spec fn cache_extends(
    g: Graph,
    m0: Map<u64, N3DValueType>,
    m1: Map<u64, N3DValueType>,
) -> bool {
    &&& forall|k: u64| #[trigger] m0.contains_key(k) ==> m1.contains_key(k) && m1[k]@ == m0[k]@
    &&& forall|k: u64| #[trigger] m1.contains_key(k) ==> m0.contains_key(k) || is_output_key(g, k)
}

/// No template declares more than the single conventional output.
proof fn lemma_output_decls_bound(t: N3DNodeTemplate)
    ensures
        template_output_decls(t).len() <= 1,
{
}

/// In a well-formed graph, a node whose template declares an output carries
/// exactly one port, named `out`, at index zero.
proof fn lemma_out_port(g: Graph, n: int)
    requires
        g.wf(),
        0 <= n < g.nodes@.len(),
        template_output_decls(g.nodes@[n].user_data.template).len() > 0,
    ensures
        g.nodes@[n].outputs@.len() == 1,
        find_output_from(g.nodes@[n].outputs@, "out"@, 0) == Some(0int),
{
    assert(node_ports_wf(g.nodes@[n]));
    let t = g.nodes@[n].user_data.template;
    lemma_output_decls_bound(t);
    assert(template_output_decls(t)[0].name == "out"@);
    assert(g.nodes@[n].outputs@[0].name@ == "out"@);
}

/// Recording a freshly computed output value keeps the cache coherent and
/// only grows it.
#[verifier::spinoff_prover]
#[verifier::rlimit(100)]
proof fn lemma_cache_insert(
    g: Graph,
    m: Map<u64, N3DValueType>,
    n: int,
    p: int,
    value: N3DValueType,
)
    requires
        g.wf(),
        cache_wf(g, m),
        0 <= n < g.nodes@.len(),
        0 <= p < g.nodes@[n].outputs@.len(),
        g.nodes@[n].outputs@.len() <= PORT_SLOTS as int,
        spec_eval_node(g, n) == Ok::<ValueView, EvalError>(value@),
    ensures
        cache_wf(g, m.insert(output_key(n, p), value)),
        cache_extends(g, m, m.insert(output_key(n, p), value)),
        m.insert(output_key(n, p), value).contains_key(output_key(n, p)),
{
    lemma_output_key_decode(n, p);
    let key = output_key(n, p);
    let m1 = m.insert(key, value);
    assert forall|k: u64| #[trigger] m1.contains_key(k) implies {
        &&& is_output_key(g, k)
        &&& spec_eval_node(g, k as int / PORT_SLOTS as int) == Ok::<ValueView, EvalError>(m1[k]@)
    } by {
        if k == key {
            assert(is_output_key(g, k));
        } else {
            assert(m.contains_key(k));
        }
    }
    assert forall|k: u64| #[trigger] m.contains_key(k) implies m1.contains_key(k) && m1[k]@
        == m[k]@ by {
        if k == key {
            assert(spec_eval_node(g, k as int / PORT_SLOTS as int) == Ok::<ValueView, EvalError>(
                m[k]@,
            ));
        }
    }
}

/// Records a computed output in the cache under its port's key and hands
/// the value back, so later consumers of the same output reuse it.
pub fn populate_output(
    graph: &Graph,
    outputs_cache: &mut OutputsCache,
    node_id: usize,
    param_name: &str,
    value: N3DValueType,
) -> (r: Result<N3DValueType, EvalError>)
    requires
        graph.wf(),
        node_id < graph.nodes@.len(),
    ensures
        match find_output_from(graph.nodes@[node_id as int].outputs@, param_name@, 0) {
            None => r == Err::<N3DValueType, EvalError>(EvalError::MissingOutput)
                && final(outputs_cache)@ == old(outputs_cache)@,
            Some(p) => final(outputs_cache)@
                == old(outputs_cache)@.insert(output_key(node_id as int, p), value)
                && r == Ok::<N3DValueType, EvalError>(value),
        },
{
    let key_name = String::from_str(param_name);
    match find_output_index(&graph.nodes[node_id].outputs, &key_name) {
        None => Err(EvalError::MissingOutput),
        Some(p) => {
            proof {
                assert(node_ports_wf(graph.nodes@[node_id as int]));
                lemma_output_decls_bound(graph.nodes@[node_id as int].user_data.template);
                lemma_output_key_decode(node_id as int, p as int);
            }
            let key: u64 = (node_id as u64) * PORT_SLOTS + (p as u64);
            outputs_cache.insert(key, value.clone());
            Ok(value)
        },
    }
}

/// Resolves one named input of a node: the cached upstream output when the
/// port is wired and already computed, a fresh recursive evaluation when it
/// is wired but not yet cached, and the stored constant when it is unwired.
#[verifier::spinoff_prover]
#[verifier::rlimit(100)]
pub fn evaluate_input(
    graph: &Graph,
    node_id: usize,
    param_name: &str,
    outputs_cache: &mut OutputsCache,
) -> (r: Result<N3DValueType, EvalError>)
    requires
        graph.wf(),
        node_id < graph.nodes@.len(),
        cache_wf(*graph, old(outputs_cache)@),
    ensures
        cache_wf(*graph, final(outputs_cache)@),
        cache_extends(*graph, old(outputs_cache)@, final(outputs_cache)@),
        result_view(r) == spec_eval_input(*graph, node_id as int, param_name@),
    decreases node_id, 1int,
{
    let key_name = String::from_str(param_name);
    match find_input_index(&graph.nodes[node_id].inputs, &key_name) {
        None => Err(EvalError::MissingInput),
        Some(i) => {
            let connection = graph.nodes[node_id].inputs[i].connection;
            match connection {
                None => Ok(graph.nodes[node_id].inputs[i].value.clone()),
                Some(oid) => {
                    proof {
                        assert(graph.connection_wf(node_id as int, i as int));
                    }
                    let un = (oid / PORT_SLOTS) as usize;
                    let cached = match outputs_cache.get(&oid) {
                        Some(v) => Some(v.clone()),
                        None => None,
                    };
                    match cached {
                        Some(v) => Ok(v),
                        None => match evaluate_node(graph, un, outputs_cache) {
                            Err(e) => Err(e),
                            Ok(_) => {
                                proof {
                                    assert(node_ports_wf(graph.nodes@[un as int]));
                                    lemma_output_decls_bound(
                                        graph.nodes@[un as int].user_data.template,
                                    );
                                    vstd::arithmetic::div_mod::lemma_fundamental_div_mod(
                                        oid as int,
                                        PORT_SLOTS as int,
                                    );
                                    lemma_output_key_decode(un as int, 0);
                                    assert(oid == output_key(un as int, 0));
                                }
                                // The recursive evaluation just cached this
                                // output — its node's only one — so the
                                // second lookup cannot miss.
                                match outputs_cache.get(&oid) {
                                    Some(v) => Ok(v.clone()),
                                    None => {
                                        proof {
                                            assert(false);
                                        }
                                        Err(EvalError::MissingOutput)
                                    },
                                }
                            },
                        },
                    }
                },
            }
        },
    }
}

/// Resolves an input and casts it to a scalar.
fn input_scalar(graph: &Graph, node_id: usize, name: &str, outputs_cache: &mut OutputsCache) -> (r:
    Result<Fixed, EvalError>)
    requires
        graph.wf(),
        node_id < graph.nodes@.len(),
        cache_wf(*graph, old(outputs_cache)@),
    ensures
        cache_wf(*graph, final(outputs_cache)@),
        cache_extends(*graph, old(outputs_cache)@, final(outputs_cache)@),
        scalar_result_view(r) == spec_input_scalar(*graph, node_id as int, name@),
    decreases node_id, 2int,
{
    match evaluate_input(graph, node_id, name, outputs_cache) {
        Ok(v) => v.try_to_scalar(),
        Err(e) => Err(e),
    }
}

/// Resolves an input and casts it to a two-component vector.
fn input_vec2(graph: &Graph, node_id: usize, name: &str, outputs_cache: &mut OutputsCache) -> (r:
    Result<Vector2, EvalError>)
    requires
        graph.wf(),
        node_id < graph.nodes@.len(),
        cache_wf(*graph, old(outputs_cache)@),
    ensures
        cache_wf(*graph, final(outputs_cache)@),
        cache_extends(*graph, old(outputs_cache)@, final(outputs_cache)@),
        vec2_result_view(r) == spec_input_vec2(*graph, node_id as int, name@),
    decreases node_id, 2int,
{
    match evaluate_input(graph, node_id, name, outputs_cache) {
        Ok(v) => v.try_to_vec2(),
        Err(e) => Err(e),
    }
}

/// Resolves an input and casts it to a three-component vector.
fn input_vec3(graph: &Graph, node_id: usize, name: &str, outputs_cache: &mut OutputsCache) -> (r:
    Result<Vector3, EvalError>)
    requires
        graph.wf(),
        node_id < graph.nodes@.len(),
        cache_wf(*graph, old(outputs_cache)@),
    ensures
        cache_wf(*graph, final(outputs_cache)@),
        cache_extends(*graph, old(outputs_cache)@, final(outputs_cache)@),
        vec3_result_view(r) == spec_input_vec3(*graph, node_id as int, name@),
    decreases node_id, 2int,
{
    match evaluate_input(graph, node_id, name, outputs_cache) {
        Ok(v) => v.try_to_vec3(),
        Err(e) => Err(e),
    }
}

/// Resolves an input and casts it to a point-space expression.
fn input_sdf_position(
    graph: &Graph,
    node_id: usize,
    name: &str,
    outputs_cache: &mut OutputsCache,
) -> (r: Result<String, EvalError>)
    requires
        graph.wf(),
        node_id < graph.nodes@.len(),
        cache_wf(*graph, old(outputs_cache)@),
    ensures
        cache_wf(*graph, final(outputs_cache)@),
        cache_extends(*graph, old(outputs_cache)@, final(outputs_cache)@),
        text_result_view(r) == spec_input_sdf_position(*graph, node_id as int, name@),
    decreases node_id, 2int,
{
    match evaluate_input(graph, node_id, name, outputs_cache) {
        Ok(v) => v.try_to_sdf_position(),
        Err(e) => Err(e),
    }
}

/// Resolves an input and casts it to a distance expression.
fn input_sdf_volume(
    graph: &Graph,
    node_id: usize,
    name: &str,
    outputs_cache: &mut OutputsCache,
) -> (r: Result<String, EvalError>)
    requires
        graph.wf(),
        node_id < graph.nodes@.len(),
        cache_wf(*graph, old(outputs_cache)@),
    ensures
        cache_wf(*graph, final(outputs_cache)@),
        cache_extends(*graph, old(outputs_cache)@, final(outputs_cache)@),
        text_result_view(r) == spec_input_sdf_volume(*graph, node_id as int, name@),
    decreases node_id, 2int,
{
    match evaluate_input(graph, node_id, name, outputs_cache) {
        Ok(v) => v.try_to_sdf_volume(),
        Err(e) => Err(e),
    }
}

/// Caches a node's computed value under its `out` port and returns it.
fn finish_output(
    graph: &Graph,
    node_id: usize,
    outputs_cache: &mut OutputsCache,
    value: N3DValueType,
) -> (r: Result<N3DValueType, EvalError>)
    requires
        graph.wf(),
        node_id < graph.nodes@.len(),
        cache_wf(*graph, old(outputs_cache)@),
        spec_eval_node(*graph, node_id as int) == spec_finish(
            *graph,
            node_id as int,
            value@,
        ),
    ensures
        cache_wf(*graph, final(outputs_cache)@),
        cache_extends(*graph, old(outputs_cache)@, final(outputs_cache)@),
        result_view(r) == spec_eval_node(*graph, node_id as int),
        r is Ok ==> final(outputs_cache)@.contains_key(output_key(node_id as int, 0)),
{
    let ghost g = *graph;
    let ghost n = node_id as int;
    let r = populate_output(graph, outputs_cache, node_id, "out", value);
    proof {
        let t = g.nodes@[n].user_data.template;
        assert(node_ports_wf(g.nodes@[n]));
        lemma_output_decls_bound(t);
        if template_output_decls(t).len() > 0 {
            lemma_out_port(g, n);
            lemma_cache_insert(g, old(outputs_cache)@, n, 0, value);
        } else {
            assert(find_output_from(g.nodes@[n].outputs@, "out"@, 0) is None);
        }
    }
    r
}


/// Evaluates a `NewScalar` node.
fn eval_new_scalar(graph: &Graph, node_id: usize, outputs_cache: &mut OutputsCache) -> (r: Result<
    N3DValueType,
    EvalError,
>)
    requires
        graph.wf(),
        node_id < graph.nodes@.len(),
        cache_wf(*graph, old(outputs_cache)@),
        graph.nodes@[node_id as int].user_data.template == N3DNodeTemplate::NewScalar,
    ensures
        cache_wf(*graph, final(outputs_cache)@),
        cache_extends(*graph, old(outputs_cache)@, final(outputs_cache)@),
        result_view(r) == spec_eval_node(*graph, node_id as int),
        r is Ok ==> final(outputs_cache)@.contains_key(output_key(node_id as int, 0)),
    decreases node_id, 3int,
{
    proof {
        reveal(spec_eval_node);
    }
    let value = match input_scalar(graph, node_id, "value", outputs_cache) {
        Ok(v) => v,
        Err(e) => {
            return Err(e);
        },
    };
    finish_output(graph, node_id, outputs_cache, N3DValueType::Scalar { value })
}

/// Evaluates a `ScalarAdd` node.
fn eval_scalar_add(graph: &Graph, node_id: usize, outputs_cache: &mut OutputsCache) -> (r: Result<
    N3DValueType,
    EvalError,
>)
    requires
        graph.wf(),
        node_id < graph.nodes@.len(),
        cache_wf(*graph, old(outputs_cache)@),
        graph.nodes@[node_id as int].user_data.template == N3DNodeTemplate::ScalarAdd,
    ensures
        cache_wf(*graph, final(outputs_cache)@),
        cache_extends(*graph, old(outputs_cache)@, final(outputs_cache)@),
        result_view(r) == spec_eval_node(*graph, node_id as int),
        r is Ok ==> final(outputs_cache)@.contains_key(output_key(node_id as int, 0)),
    decreases node_id, 3int,
{
    proof {
        reveal(spec_eval_node);
    }
    let a = match input_scalar(graph, node_id, "A", outputs_cache) {
        Ok(v) => v,
        Err(e) => {
            return Err(e);
        },
    };
    let b = match input_scalar(graph, node_id, "B", outputs_cache) {
        Ok(v) => v,
        Err(e) => {
            return Err(e);
        },
    };
    finish_output(graph, node_id, outputs_cache, N3DValueType::Scalar { value: a.add(b) })
}

/// Evaluates a `ScalarSub` node.
fn eval_scalar_sub(graph: &Graph, node_id: usize, outputs_cache: &mut OutputsCache) -> (r: Result<
    N3DValueType,
    EvalError,
>)
    requires
        graph.wf(),
        node_id < graph.nodes@.len(),
        cache_wf(*graph, old(outputs_cache)@),
        graph.nodes@[node_id as int].user_data.template == N3DNodeTemplate::ScalarSub,
    ensures
        cache_wf(*graph, final(outputs_cache)@),
        cache_extends(*graph, old(outputs_cache)@, final(outputs_cache)@),
        result_view(r) == spec_eval_node(*graph, node_id as int),
        r is Ok ==> final(outputs_cache)@.contains_key(output_key(node_id as int, 0)),
    decreases node_id, 3int,
{
    proof {
        reveal(spec_eval_node);
    }
    let a = match input_scalar(graph, node_id, "A", outputs_cache) {
        Ok(v) => v,
        Err(e) => {
            return Err(e);
        },
    };
    let b = match input_scalar(graph, node_id, "B", outputs_cache) {
        Ok(v) => v,
        Err(e) => {
            return Err(e);
        },
    };
    finish_output(graph, node_id, outputs_cache, N3DValueType::Scalar { value: a.sub(b) })
}

/// Evaluates a `NewVec2` node.
fn eval_new_vec2(graph: &Graph, node_id: usize, outputs_cache: &mut OutputsCache) -> (r: Result<
    N3DValueType,
    EvalError,
>)
    requires
        graph.wf(),
        node_id < graph.nodes@.len(),
        cache_wf(*graph, old(outputs_cache)@),
        graph.nodes@[node_id as int].user_data.template == N3DNodeTemplate::NewVec2,
    ensures
        cache_wf(*graph, final(outputs_cache)@),
        cache_extends(*graph, old(outputs_cache)@, final(outputs_cache)@),
        result_view(r) == spec_eval_node(*graph, node_id as int),
        r is Ok ==> final(outputs_cache)@.contains_key(output_key(node_id as int, 0)),
    decreases node_id, 3int,
{
    proof {
        reveal(spec_eval_node);
    }
    let x = match input_scalar(graph, node_id, "x", outputs_cache) {
        Ok(v) => v,
        Err(e) => {
            return Err(e);
        },
    };
    let y = match input_scalar(graph, node_id, "y", outputs_cache) {
        Ok(v) => v,
        Err(e) => {
            return Err(e);
        },
    };
    finish_output(graph, node_id, outputs_cache, N3DValueType::Vec2 { value: Vector2::new(x, y) })
}

/// Evaluates a `Vec2Add` node.
fn eval_vec2_add(graph: &Graph, node_id: usize, outputs_cache: &mut OutputsCache) -> (r: Result<
    N3DValueType,
    EvalError,
>)
    requires
        graph.wf(),
        node_id < graph.nodes@.len(),
        cache_wf(*graph, old(outputs_cache)@),
        graph.nodes@[node_id as int].user_data.template == N3DNodeTemplate::Vec2Add,
    ensures
        cache_wf(*graph, final(outputs_cache)@),
        cache_extends(*graph, old(outputs_cache)@, final(outputs_cache)@),
        result_view(r) == spec_eval_node(*graph, node_id as int),
        r is Ok ==> final(outputs_cache)@.contains_key(output_key(node_id as int, 0)),
    decreases node_id, 3int,
{
    proof {
        reveal(spec_eval_node);
    }
    let v1 = match input_vec2(graph, node_id, "v1", outputs_cache) {
        Ok(v) => v,
        Err(e) => {
            return Err(e);
        },
    };
    let v2 = match input_vec2(graph, node_id, "v2", outputs_cache) {
        Ok(v) => v,
        Err(e) => {
            return Err(e);
        },
    };
    finish_output(graph, node_id, outputs_cache, N3DValueType::Vec2 { value: v1.add(v2) })
}

/// Evaluates a `Vec2Subtract` node.
fn eval_vec2_subtract(graph: &Graph, node_id: usize, outputs_cache: &mut OutputsCache) -> (r:
    Result<N3DValueType, EvalError>)
    requires
        graph.wf(),
        node_id < graph.nodes@.len(),
        cache_wf(*graph, old(outputs_cache)@),
        graph.nodes@[node_id as int].user_data.template == N3DNodeTemplate::Vec2Subtract,
    ensures
        cache_wf(*graph, final(outputs_cache)@),
        cache_extends(*graph, old(outputs_cache)@, final(outputs_cache)@),
        result_view(r) == spec_eval_node(*graph, node_id as int),
        r is Ok ==> final(outputs_cache)@.contains_key(output_key(node_id as int, 0)),
    decreases node_id, 3int,
{
    proof {
        reveal(spec_eval_node);
    }
    let v1 = match input_vec2(graph, node_id, "v1", outputs_cache) {
        Ok(v) => v,
        Err(e) => {
            return Err(e);
        },
    };
    let v2 = match input_vec2(graph, node_id, "v2", outputs_cache) {
        Ok(v) => v,
        Err(e) => {
            return Err(e);
        },
    };
    finish_output(graph, node_id, outputs_cache, N3DValueType::Vec2 { value: v1.sub(v2) })
}

/// Evaluates a `Vec2ScalarMul` node.
fn eval_vec2_scalar_mul(graph: &Graph, node_id: usize, outputs_cache: &mut OutputsCache) -> (r:
    Result<N3DValueType, EvalError>)
    requires
        graph.wf(),
        node_id < graph.nodes@.len(),
        cache_wf(*graph, old(outputs_cache)@),
        graph.nodes@[node_id as int].user_data.template == N3DNodeTemplate::Vec2ScalarMul,
    ensures
        cache_wf(*graph, final(outputs_cache)@),
        cache_extends(*graph, old(outputs_cache)@, final(outputs_cache)@),
        result_view(r) == spec_eval_node(*graph, node_id as int),
        r is Ok ==> final(outputs_cache)@.contains_key(output_key(node_id as int, 0)),
    decreases node_id, 3int,
{
    proof {
        reveal(spec_eval_node);
    }
    let scalar = match input_scalar(graph, node_id, "scalar", outputs_cache) {
        Ok(v) => v,
        Err(e) => {
            return Err(e);
        },
    };
    let vector = match input_vec2(graph, node_id, "vector", outputs_cache) {
        Ok(v) => v,
        Err(e) => {
            return Err(e);
        },
    };
    finish_output(graph, node_id, outputs_cache, N3DValueType::Vec2 { value: vector.scale(scalar) })
}

/// Evaluates a `NewVec3` node.
fn eval_new_vec3(graph: &Graph, node_id: usize, outputs_cache: &mut OutputsCache) -> (r: Result<
    N3DValueType,
    EvalError,
>)
    requires
        graph.wf(),
        node_id < graph.nodes@.len(),
        cache_wf(*graph, old(outputs_cache)@),
        graph.nodes@[node_id as int].user_data.template == N3DNodeTemplate::NewVec3,
    ensures
        cache_wf(*graph, final(outputs_cache)@),
        cache_extends(*graph, old(outputs_cache)@, final(outputs_cache)@),
        result_view(r) == spec_eval_node(*graph, node_id as int),
        r is Ok ==> final(outputs_cache)@.contains_key(output_key(node_id as int, 0)),
    decreases node_id, 3int,
{
    proof {
        reveal(spec_eval_node);
    }
    let x = match input_scalar(graph, node_id, "x", outputs_cache) {
        Ok(v) => v,
        Err(e) => {
            return Err(e);
        },
    };
    let y = match input_scalar(graph, node_id, "y", outputs_cache) {
        Ok(v) => v,
        Err(e) => {
            return Err(e);
        },
    };
    let z = match input_scalar(graph, node_id, "z", outputs_cache) {
        Ok(v) => v,
        Err(e) => {
            return Err(e);
        },
    };
    finish_output(
        graph,
        node_id,
        outputs_cache,
        N3DValueType::Vec3 { value: Vector3::new(x, y, z) },
    )
}

/// Evaluates a `Vec3Add` node.
fn eval_vec3_add(graph: &Graph, node_id: usize, outputs_cache: &mut OutputsCache) -> (r: Result<
    N3DValueType,
    EvalError,
>)
    requires
        graph.wf(),
        node_id < graph.nodes@.len(),
        cache_wf(*graph, old(outputs_cache)@),
        graph.nodes@[node_id as int].user_data.template == N3DNodeTemplate::Vec3Add,
    ensures
        cache_wf(*graph, final(outputs_cache)@),
        cache_extends(*graph, old(outputs_cache)@, final(outputs_cache)@),
        result_view(r) == spec_eval_node(*graph, node_id as int),
        r is Ok ==> final(outputs_cache)@.contains_key(output_key(node_id as int, 0)),
    decreases node_id, 3int,
{
    proof {
        reveal(spec_eval_node);
    }
    let v1 = match input_vec3(graph, node_id, "v1", outputs_cache) {
        Ok(v) => v,
        Err(e) => {
            return Err(e);
        },
    };
    let v2 = match input_vec3(graph, node_id, "v2", outputs_cache) {
        Ok(v) => v,
        Err(e) => {
            return Err(e);
        },
    };
    finish_output(graph, node_id, outputs_cache, N3DValueType::Vec3 { value: v1.add(v2) })
}

/// Evaluates a `Vec3Sub` node.
fn eval_vec3_sub(graph: &Graph, node_id: usize, outputs_cache: &mut OutputsCache) -> (r: Result<
    N3DValueType,
    EvalError,
>)
    requires
        graph.wf(),
        node_id < graph.nodes@.len(),
        cache_wf(*graph, old(outputs_cache)@),
        graph.nodes@[node_id as int].user_data.template == N3DNodeTemplate::Vec3Sub,
    ensures
        cache_wf(*graph, final(outputs_cache)@),
        cache_extends(*graph, old(outputs_cache)@, final(outputs_cache)@),
        result_view(r) == spec_eval_node(*graph, node_id as int),
        r is Ok ==> final(outputs_cache)@.contains_key(output_key(node_id as int, 0)),
    decreases node_id, 3int,
{
    proof {
        reveal(spec_eval_node);
    }
    let v1 = match input_vec3(graph, node_id, "v1", outputs_cache) {
        Ok(v) => v,
        Err(e) => {
            return Err(e);
        },
    };
    let v2 = match input_vec3(graph, node_id, "v2", outputs_cache) {
        Ok(v) => v,
        Err(e) => {
            return Err(e);
        },
    };
    finish_output(graph, node_id, outputs_cache, N3DValueType::Vec3 { value: v1.sub(v2) })
}

/// Evaluates a `Vec3Dot` node.
fn eval_vec3_dot(graph: &Graph, node_id: usize, outputs_cache: &mut OutputsCache) -> (r: Result<
    N3DValueType,
    EvalError,
>)
    requires
        graph.wf(),
        node_id < graph.nodes@.len(),
        cache_wf(*graph, old(outputs_cache)@),
        graph.nodes@[node_id as int].user_data.template == N3DNodeTemplate::Vec3Dot,
    ensures
        cache_wf(*graph, final(outputs_cache)@),
        cache_extends(*graph, old(outputs_cache)@, final(outputs_cache)@),
        result_view(r) == spec_eval_node(*graph, node_id as int),
        r is Ok ==> final(outputs_cache)@.contains_key(output_key(node_id as int, 0)),
    decreases node_id, 3int,
{
    proof {
        reveal(spec_eval_node);
    }
    let v1 = match input_vec3(graph, node_id, "v1", outputs_cache) {
        Ok(v) => v,
        Err(e) => {
            return Err(e);
        },
    };
    let v2 = match input_vec3(graph, node_id, "v2", outputs_cache) {
        Ok(v) => v,
        Err(e) => {
            return Err(e);
        },
    };
    finish_output(graph, node_id, outputs_cache, N3DValueType::Scalar { value: v1.dot(&v2) })
}

/// Evaluates a `Vec3Cross` node.
fn eval_vec3_cross(graph: &Graph, node_id: usize, outputs_cache: &mut OutputsCache) -> (r: Result<
    N3DValueType,
    EvalError,
>)
    requires
        graph.wf(),
        node_id < graph.nodes@.len(),
        cache_wf(*graph, old(outputs_cache)@),
        graph.nodes@[node_id as int].user_data.template == N3DNodeTemplate::Vec3Cross,
    ensures
        cache_wf(*graph, final(outputs_cache)@),
        cache_extends(*graph, old(outputs_cache)@, final(outputs_cache)@),
        result_view(r) == spec_eval_node(*graph, node_id as int),
        r is Ok ==> final(outputs_cache)@.contains_key(output_key(node_id as int, 0)),
    decreases node_id, 3int,
{
    proof {
        reveal(spec_eval_node);
    }
    let v1 = match input_vec3(graph, node_id, "v1", outputs_cache) {
        Ok(v) => v,
        Err(e) => {
            return Err(e);
        },
    };
    let v2 = match input_vec3(graph, node_id, "v2", outputs_cache) {
        Ok(v) => v,
        Err(e) => {
            return Err(e);
        },
    };
    finish_output(graph, node_id, outputs_cache, N3DValueType::Vec3 { value: v1.cross(&v2) })
}

/// Evaluates an `SDFPosition` leaf: the canonical sample point.
fn eval_sdf_position(graph: &Graph, node_id: usize, outputs_cache: &mut OutputsCache) -> (r:
    Result<N3DValueType, EvalError>)
    requires
        graph.wf(),
        node_id < graph.nodes@.len(),
        cache_wf(*graph, old(outputs_cache)@),
        graph.nodes@[node_id as int].user_data.template == N3DNodeTemplate::SDFPosition,
    ensures
        cache_wf(*graph, final(outputs_cache)@),
        cache_extends(*graph, old(outputs_cache)@, final(outputs_cache)@),
        result_view(r) == spec_eval_node(*graph, node_id as int),
        r is Ok ==> final(outputs_cache)@.contains_key(output_key(node_id as int, 0)),
    decreases node_id, 3int,
{
    proof {
        reveal(spec_eval_node);
    }
    finish_output(
        graph,
        node_id,
        outputs_cache,
        N3DValueType::SDFPosition { value: String::from_str("p") },
    )
}

/// Evaluates an `SDFTranslate` node: pulls the sample point into the
/// translated local space through the translate constructor.
fn eval_sdf_translate(graph: &Graph, node_id: usize, outputs_cache: &mut OutputsCache) -> (r:
    Result<N3DValueType, EvalError>)
    requires
        graph.wf(),
        node_id < graph.nodes@.len(),
        cache_wf(*graph, old(outputs_cache)@),
        graph.nodes@[node_id as int].user_data.template == N3DNodeTemplate::SDFTranslate,
    ensures
        cache_wf(*graph, final(outputs_cache)@),
        cache_extends(*graph, old(outputs_cache)@, final(outputs_cache)@),
        result_view(r) == spec_eval_node(*graph, node_id as int),
        r is Ok ==> final(outputs_cache)@.contains_key(output_key(node_id as int, 0)),
    decreases node_id, 3int,
{
    proof {
        reveal(spec_eval_node);
    }
    let t = match input_vec3(graph, node_id, "translation", outputs_cache) {
        Ok(v) => v,
        Err(e) => {
            return Err(e);
        },
    };
    let pos = match input_sdf_position(graph, node_id, "sdf position", outputs_cache) {
        Ok(v) => v,
        Err(e) => {
            return Err(e);
        },
    };
    finish_output(
        graph,
        node_id,
        outputs_cache,
        N3DValueType::SDFPosition { value: SDFBuilder::translate(Some(pos.as_str()), t) },
    )
}

/// Evaluates an `SDFBox` node through the box constructor, with
/// fillet-adjusted extents.
fn eval_sdf_box(graph: &Graph, node_id: usize, outputs_cache: &mut OutputsCache) -> (r: Result<
    N3DValueType,
    EvalError,
>)
    requires
        graph.wf(),
        node_id < graph.nodes@.len(),
        cache_wf(*graph, old(outputs_cache)@),
        graph.nodes@[node_id as int].user_data.template == N3DNodeTemplate::SDFBox,
    ensures
        cache_wf(*graph, final(outputs_cache)@),
        cache_extends(*graph, old(outputs_cache)@, final(outputs_cache)@),
        result_view(r) == spec_eval_node(*graph, node_id as int),
        r is Ok ==> final(outputs_cache)@.contains_key(output_key(node_id as int, 0)),
    decreases node_id, 3int,
{
    proof {
        reveal(spec_eval_node);
    }
    let dim = match input_vec3(graph, node_id, "dimensions", outputs_cache) {
        Ok(v) => v,
        Err(e) => {
            return Err(e);
        },
    };
    let fil = match input_scalar(graph, node_id, "fillet", outputs_cache) {
        Ok(v) => v,
        Err(e) => {
            return Err(e);
        },
    };
    let pos = match input_sdf_position(graph, node_id, "sdf position", outputs_cache) {
        Ok(v) => v,
        Err(e) => {
            return Err(e);
        },
    };
    finish_output(
        graph,
        node_id,
        outputs_cache,
        N3DValueType::SDFVolume { value: SDFBuilder::p_box(Some(pos.as_str()), dim, fil) },
    )
}

/// Evaluates an `SDFUnion` node: the hard union of its two operands.
fn eval_sdf_union(graph: &Graph, node_id: usize, outputs_cache: &mut OutputsCache) -> (r: Result<
    N3DValueType,
    EvalError,
>)
    requires
        graph.wf(),
        node_id < graph.nodes@.len(),
        cache_wf(*graph, old(outputs_cache)@),
        graph.nodes@[node_id as int].user_data.template == N3DNodeTemplate::SDFUnion,
    ensures
        cache_wf(*graph, final(outputs_cache)@),
        cache_extends(*graph, old(outputs_cache)@, final(outputs_cache)@),
        result_view(r) == spec_eval_node(*graph, node_id as int),
        r is Ok ==> final(outputs_cache)@.contains_key(output_key(node_id as int, 0)),
    decreases node_id, 3int,
{
    proof {
        reveal(spec_eval_node);
    }
    let sdf1 = match input_sdf_volume(graph, node_id, "sdf 1", outputs_cache) {
        Ok(v) => v,
        Err(e) => {
            return Err(e);
        },
    };
    let sdf2 = match input_sdf_volume(graph, node_id, "sdf 2", outputs_cache) {
        Ok(v) => v,
        Err(e) => {
            return Err(e);
        },
    };
    let mut text = String::from_str("op_union(");
    text.append(sdf1.as_str());
    text.append(", ");
    text.append(sdf2.as_str());
    text.append(")");
    proof {
        assert(text@ =~= spec_union_text(sdf1@, sdf2@));
    }
    finish_output(graph, node_id, outputs_cache, N3DValueType::SDFVolume { value: text })
}

/// Evaluates an `SDFViewer` sink: passes its resolved input through. An
/// unwired input — the scene is incomplete — or any failure to resolve it
/// is reported as the viewer's own error.
fn eval_sdf_viewer(graph: &Graph, node_id: usize, outputs_cache: &mut OutputsCache) -> (r: Result<
    N3DValueType,
    EvalError,
>)
    requires
        graph.wf(),
        node_id < graph.nodes@.len(),
        cache_wf(*graph, old(outputs_cache)@),
        graph.nodes@[node_id as int].user_data.template == N3DNodeTemplate::SDFViewer,
    ensures
        cache_wf(*graph, final(outputs_cache)@),
        cache_extends(*graph, old(outputs_cache)@, final(outputs_cache)@),
        result_view(r) == spec_eval_node(*graph, node_id as int),
    decreases node_id, 3int,
{
    proof {
        reveal(spec_eval_node);
    }
    let key_name = String::from_str("sdf");
    match find_input_index(&graph.nodes[node_id].inputs, &key_name) {
        None => Err(EvalError::ViewerError),
        Some(i) => {
            if graph.nodes[node_id].inputs[i].connection.is_some() {
                match input_sdf_volume(graph, node_id, "sdf", outputs_cache) {
                    Ok(value) => Ok(N3DValueType::SDFVolume { value }),
                    Err(_) => Err(EvalError::ViewerError),
                }
            } else {
                Err(EvalError::ViewerError)
            }
        },
    }
}

/// Recursively evaluates all dependencies of the given node, then the node
/// itself, returning its conventional result. The result is the cache-free
/// meaning [`spec_eval_node`] of the immutable graph, whatever coherent
/// cache the pass started with; the cache only gains correct output values.
pub fn evaluate_node(graph: &Graph, node_id: usize, outputs_cache: &mut OutputsCache) -> (r:
    Result<N3DValueType, EvalError>)
    requires
        graph.wf(),
        node_id < graph.nodes@.len(),
        cache_wf(*graph, old(outputs_cache)@),
    ensures
        cache_wf(*graph, final(outputs_cache)@),
        cache_extends(*graph, old(outputs_cache)@, final(outputs_cache)@),
        result_view(r) == spec_eval_node(*graph, node_id as int),
        r is Ok && template_output_decls(graph.nodes@[node_id as int].user_data.template).len()
            > 0 ==> final(outputs_cache)@.contains_key(output_key(node_id as int, 0)),
    decreases node_id, 4int,
{
    let template = graph.nodes[node_id].user_data.template;
    match template {
        N3DNodeTemplate::NewScalar => eval_new_scalar(graph, node_id, outputs_cache),
        N3DNodeTemplate::ScalarAdd => eval_scalar_add(graph, node_id, outputs_cache),
        N3DNodeTemplate::ScalarSub => eval_scalar_sub(graph, node_id, outputs_cache),
        N3DNodeTemplate::NewVec2 => eval_new_vec2(graph, node_id, outputs_cache),
        N3DNodeTemplate::Vec2Add => eval_vec2_add(graph, node_id, outputs_cache),
        N3DNodeTemplate::Vec2Subtract => eval_vec2_subtract(graph, node_id, outputs_cache),
        N3DNodeTemplate::Vec2ScalarMul => eval_vec2_scalar_mul(graph, node_id, outputs_cache),
        N3DNodeTemplate::NewVec3 => eval_new_vec3(graph, node_id, outputs_cache),
        N3DNodeTemplate::Vec3Add => eval_vec3_add(graph, node_id, outputs_cache),
        N3DNodeTemplate::Vec3Sub => eval_vec3_sub(graph, node_id, outputs_cache),
        N3DNodeTemplate::Vec3Dot => eval_vec3_dot(graph, node_id, outputs_cache),
        N3DNodeTemplate::Vec3Cross => eval_vec3_cross(graph, node_id, outputs_cache),
        N3DNodeTemplate::SDFPosition => eval_sdf_position(graph, node_id, outputs_cache),
        N3DNodeTemplate::SDFTranslate => eval_sdf_translate(graph, node_id, outputs_cache),
        N3DNodeTemplate::SDFBox => eval_sdf_box(graph, node_id, outputs_cache),
        N3DNodeTemplate::SDFUnion => eval_sdf_union(graph, node_id, outputs_cache),
        N3DNodeTemplate::SDFViewer => eval_sdf_viewer(graph, node_id, outputs_cache),
    }
}

/// A freshly allocated cache is coherent, so every evaluation pass may
/// start from one.
pub proof fn lemma_empty_cache_coherent(g: Graph)
    ensures
        cache_wf(g, Map::<u64, N3DValueType>::empty()),
{
}

/// Determinism: evaluating the same immutable graph and the same node in
/// two passes — each pass starting from any coherent cache, in particular
/// two independently constructed empty ones — yields identical result
/// values, because `evaluate_node` always returns the cache-free meaning of
/// the graph.
pub proof fn lemma_evaluation_deterministic(
    g: Graph,
    n: int,
    r1: Result<N3DValueType, EvalError>,
    r2: Result<N3DValueType, EvalError>,
)
    requires
        result_view(r1) == spec_eval_node(g, n),
        result_view(r2) == spec_eval_node(g, n),
    ensures
        result_view(r1) == result_view(r2),
{
}

/// Constant fallback: an input port with no connection always resolves to
/// its stored constant, whatever the rest of the graph looks like.
pub proof fn lemma_constant_fallback(g: Graph, n: int, name: Seq<char>, i: int)
    requires
        find_input_from(g.nodes@[n].inputs@, name, 0) == Some(i),
        0 <= i < g.nodes@[n].inputs@.len(),
        g.nodes@[n].inputs@[i].connection is None,
    ensures
        spec_eval_input(g, n, name) == Ok::<ValueView, EvalError>(g.nodes@[n].inputs@[i].value@),
{
}

/// At-most-once evaluation, counted through the cache: a pass that starts
/// from an empty cache ends with at most one recorded output per node, no
/// matter how many edges fan out of each output.
pub proof fn lemma_at_most_once(g: Graph, m: Map<u64, N3DValueType>)
    requires
        g.wf(),
        m.dom().finite(),
        cache_extends(g, Map::<u64, N3DValueType>::empty(), m),
    ensures
        m.len() <= g.nodes@.len(),
{
    let len = g.nodes@.len() as int;
    let f = |n: int| (n * PORT_SLOTS as int) as u64;
    let range = vstd::set_lib::set_int_range(0, len);
    let keys = range.map(f);
    vstd::set_lib::lemma_int_range(0, len);
    vstd::set_lib::lemma_map_size_bound(range, keys, f);
    assert forall|k: u64| #[trigger] m.dom().contains(k) implies keys.contains(k) by {
        assert(m.contains_key(k));
        assert(is_output_key(g, k));
        let n = k as int / PORT_SLOTS as int;
        let p = k as int % PORT_SLOTS as int;
        assert(node_ports_wf(g.nodes@[n]));
        lemma_output_decls_bound(g.nodes@[n].user_data.template);
        assert(p == 0);
        vstd::arithmetic::div_mod::lemma_fundamental_div_mod(k as int, PORT_SLOTS as int);
        assert(f(n) == k);
        assert(range.contains(n));
    }
    vstd::set_lib::lemma_len_subset(m.dom(), keys);
}

/// The on-screen line for one evaluation outcome.
pub open spec fn spec_result_text(res: Result<ValueView, EvalError>) -> Seq<char> {
    match res {
        Ok(v) => "The result is: "@ + crate::node_graph::spec_describe_view(v),
        Err(e) => "Execution error: "@ + e.spec_message(),
    }
}

/// What one frame derives from the active-node selection.
pub struct ActiveNodeFrame {
    /// The readout drawn over the viewport, when a node is selected.
    pub text: Option<String>,
    /// The compiled scene expression, when the result is a distance volume.
    pub scene: Option<String>,
    /// The selection carried into the next frame; a dangling id is cleared.
    pub active_node: Option<usize>,
}

/// One frame of the active-node display: a selection pointing at a deleted
/// node is cleared without any message; otherwise the node is evaluated
/// against a fresh cache, the outcome is formatted for display, and a
/// volume result is additionally handed back as the scene expression for
/// the ray marcher.
pub fn active_node_update(graph: &Graph, active_node: Option<usize>) -> (r: ActiveNodeFrame)
    requires
        graph.wf(),
    ensures
        match active_node {
            None => r.text is None && r.scene is None && r.active_node is None,
            Some(n) => {
                if n < graph.nodes@.len() {
                    let res = spec_eval_node(*graph, n as int);
                    &&& r.active_node == Some(n)
                    &&& r.text matches Some(t) && t@ == spec_result_text(res)
                    &&& match res {
                        Ok(ValueView::SDFVolume { text }) => r.scene matches Some(s) && s@
                            == text,
                        _ => r.scene is None,
                    }
                } else {
                    r.text is None && r.scene is None && r.active_node is None
                }
            },
        },
{
    match active_node {
        None => ActiveNodeFrame { text: None, scene: None, active_node: None },
        Some(node) => {
            if node < graph.nodes.len() {
                let mut outputs_cache: OutputsCache = HashMap::new();
                let result = evaluate_node(graph, node, &mut outputs_cache);
                let mut scene: Option<String> = None;
                let text = match &result {
                    Ok(value) => {
                        if let N3DValueType::SDFVolume { value: expr } = value {
                            scene = Some(expr.clone());
                        }
                        let mut t = String::from_str("The result is: ");
                        let d = value.describe();
                        t.append(d.as_str());
                        t
                    },
                    Err(err) => {
                        let mut t = String::from_str("Execution error: ");
                        let msg = err.message();
                        t.append(msg.as_str());
                        t
                    },
                };
                ActiveNodeFrame { text: Some(text), scene, active_node: Some(node) }
            } else {
                ActiveNodeFrame { text: None, scene: None, active_node: None }
            }
        },
    }
}

} // verus!
