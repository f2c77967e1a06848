//! The typed dataflow graph.
//!
//! Nodes are instances of a closed set of templates; each template fixes a
//! named, typed set of input and output ports. An input port holds a constant
//! value that the user edits, and may additionally be wired to exactly one
//! upstream node's output. Connections always point from a lower-numbered
//! node to a higher-numbered one — the topological numbering is the witness
//! that the graph is acyclic, which the evaluator relies on.

use vstd::prelude::*;
use vstd::string::*;

use crate::fixed::{spec_fixed_text, Fixed};
use crate::vector::{Vector2, Vector3};

verus! {

/// The semantic category of a port; connections relate ports of one
/// category, but values are only checked when a consumer casts them.
#[derive(Clone, Copy, PartialEq, Eq, Structural, Debug)]
pub enum N3DDataType {
    Scalar,
    Vec2,
    Vec3,
    SDFPosition,
    SDFVolume,
}

/// The closed set of node kinds.
#[derive(Clone, Copy, PartialEq, Eq, Structural, Debug)]
pub enum N3DNodeTemplate {
    NewScalar,
    ScalarAdd,
    ScalarSub,
    NewVec2,
    Vec2Add,
    Vec2Subtract,
    Vec2ScalarMul,
    NewVec3,
    Vec3Add,
    Vec3Sub,
    Vec3Dot,
    Vec3Cross,
    SDFPosition,
    SDFTranslate,
    SDFBox,
    SDFUnion,
    SDFViewer,
}

/// Per-node user data: the template the node was built from.
#[derive(Clone, Copy, PartialEq, Eq, Structural, Debug)]
pub struct N3DNodeData {
    pub template: N3DNodeTemplate,
}

/// Whether an input port takes a connection, an inline constant, or either.
#[derive(Clone, Copy, PartialEq, Eq, Structural, Debug)]
pub enum InputParamKind {
    ConnectionOnly,
    ConstantOnly,
    ConnectionOrConstant,
}

/// A runtime value: the tagged union the evaluator passes along edges.
#[derive(Debug)]
pub enum N3DValueType {
    Scalar { value: Fixed },
    Vec2 { value: Vector2 },
    Vec3 { value: Vector3 },
    SDFPosition { value: String },
    SDFVolume { value: String },
}

/// The mathematical shadow of [`N3DValueType`]: scalars in fixed-point
/// units, expressions as character sequences.
pub enum ValueView {
    Scalar { value: int },
    Vec2 { x: int, y: int },
    Vec3 { x: int, y: int, z: int },
    SDFPosition { text: Seq<char> },
    SDFVolume { text: Seq<char> },
}

impl View for N3DValueType {
    type V = ValueView;

    open spec fn view(&self) -> ValueView {
        match self {
            N3DValueType::Scalar { value } => ValueView::Scalar { value: value.units as int },
            N3DValueType::Vec2 { value } => ValueView::Vec2 {
                x: value.x.units as int,
                y: value.y.units as int,
            },
            N3DValueType::Vec3 { value } => ValueView::Vec3 {
                x: value.x.units as int,
                y: value.y.units as int,
                z: value.z.units as int,
            },
            N3DValueType::SDFPosition { value } => ValueView::SDFPosition { text: value@ },
            N3DValueType::SDFVolume { value } => ValueView::SDFVolume { text: value@ },
        }
    }
}

/// An evaluation failure. Every failure is a value handed back to the
/// caller; evaluation never aborts the process.
#[derive(Clone, Copy, PartialEq, Eq, Structural, Debug)]
pub enum EvalError {
    /// A consumer asked for one variant and the value held another.
    BadCast { found: N3DDataType, wanted: N3DDataType },
    /// A template referenced an input port the node does not have.
    MissingInput,
    /// A template referenced an output port the node does not have.
    MissingOutput,
    /// The viewer sink could not resolve its input.
    ViewerError,
}

/// The category a view-level value belongs to.
pub open spec fn view_data_type(v: ValueView) -> N3DDataType {
    match v {
        ValueView::Scalar { .. } => N3DDataType::Scalar,
        ValueView::Vec2 { .. } => N3DDataType::Vec2,
        ValueView::Vec3 { .. } => N3DDataType::Vec3,
        ValueView::SDFPosition { .. } => N3DDataType::SDFPosition,
        ValueView::SDFVolume { .. } => N3DDataType::SDFVolume,
    }
}

/// View-level cast to a scalar: the typed-cast rule every consumer follows.
pub open spec fn view_as_scalar(v: ValueView) -> Result<int, EvalError> {
    match v {
        ValueView::Scalar { value } => Ok(value),
        _ => Err(
            EvalError::BadCast { found: view_data_type(v), wanted: N3DDataType::Scalar },
        ),
    }
}

/// View-level cast to a two-component vector.
pub open spec fn view_as_vec2(v: ValueView) -> Result<(int, int), EvalError> {
    match v {
        ValueView::Vec2 { x, y } => Ok((x, y)),
        _ => Err(EvalError::BadCast { found: view_data_type(v), wanted: N3DDataType::Vec2 }),
    }
}

/// View-level cast to a three-component vector.
pub open spec fn view_as_vec3(v: ValueView) -> Result<(int, int, int), EvalError> {
    match v {
        ValueView::Vec3 { x, y, z } => Ok((x, y, z)),
        _ => Err(EvalError::BadCast { found: view_data_type(v), wanted: N3DDataType::Vec3 }),
    }
}

/// View-level cast to a point-space expression.
pub open spec fn view_as_sdf_position(v: ValueView) -> Result<Seq<char>, EvalError> {
    match v {
        ValueView::SDFPosition { text } => Ok(text),
        _ => Err(
            EvalError::BadCast { found: view_data_type(v), wanted: N3DDataType::SDFPosition },
        ),
    }
}

/// View-level cast to a distance expression.
pub open spec fn view_as_sdf_volume(v: ValueView) -> Result<Seq<char>, EvalError> {
    match v {
        ValueView::SDFVolume { text } => Ok(text),
        _ => Err(
            EvalError::BadCast { found: view_data_type(v), wanted: N3DDataType::SDFVolume },
        ),
    }
}

/// The view of a full evaluation result.
pub open spec fn result_view(r: Result<N3DValueType, EvalError>) -> Result<ValueView, EvalError> {
    match r {
        Ok(v) => Ok(v@),
        Err(e) => Err(e),
    }
}

/// The view of a scalar cast result.
pub open spec fn scalar_result_view(r: Result<Fixed, EvalError>) -> Result<int, EvalError> {
    match r {
        Ok(f) => Ok(f.units as int),
        Err(e) => Err(e),
    }
}

/// The view of a two-component cast result.
pub open spec fn vec2_result_view(r: Result<Vector2, EvalError>) -> Result<(int, int), EvalError> {
    match r {
        Ok(v) => Ok((v.x.units as int, v.y.units as int)),
        Err(e) => Err(e),
    }
}

/// The view of a three-component cast result.
pub open spec fn vec3_result_view(r: Result<Vector3, EvalError>) -> Result<
    (int, int, int),
    EvalError,
> {
    match r {
        Ok(v) => Ok((v.x.units as int, v.y.units as int, v.z.units as int)),
        Err(e) => Err(e),
    }
}

/// The view of an expression-text cast result.
pub open spec fn text_result_view(r: Result<String, EvalError>) -> Result<Seq<char>, EvalError> {
    match r {
        Ok(s) => Ok(s@),
        Err(e) => Err(e),
    }
}

impl N3DValueType {
    /// The category this value belongs to.
    pub open spec fn spec_data_type(&self) -> N3DDataType {
        view_data_type(self@)
    }

    #[verifier::when_used_as_spec(spec_data_type)]
    pub fn data_type(&self) -> (t: N3DDataType)
        ensures
            t == self.spec_data_type(),
    {
        match self {
            N3DValueType::Scalar { .. } => N3DDataType::Scalar,
            N3DValueType::Vec2 { .. } => N3DDataType::Vec2,
            N3DValueType::Vec3 { .. } => N3DDataType::Vec3,
            N3DValueType::SDFPosition { .. } => N3DDataType::SDFPosition,
            N3DValueType::SDFVolume { .. } => N3DDataType::SDFVolume,
        }
    }

    /// Downcast to a two-component vector: the wrapped vector when this is a
    /// `Vec2`, a cast failure naming both categories otherwise.
    pub fn try_to_vec2(self) -> (r: Result<Vector2, EvalError>)
        ensures
            vec2_result_view(r) == view_as_vec2(self@),
            self matches N3DValueType::Vec2 { value } ==> r == Ok::<Vector2, EvalError>(value),
    {
        if let N3DValueType::Vec2 { value } = self {
            Ok(value)
        } else {
            Err(EvalError::BadCast { found: self.data_type(), wanted: N3DDataType::Vec2 })
        }
    }

    /// Downcast to a three-component vector.
    pub fn try_to_vec3(self) -> (r: Result<Vector3, EvalError>)
        ensures
            vec3_result_view(r) == view_as_vec3(self@),
            self matches N3DValueType::Vec3 { value } ==> r == Ok::<Vector3, EvalError>(value),
    {
        if let N3DValueType::Vec3 { value } = self {
            Ok(value)
        } else {
            Err(EvalError::BadCast { found: self.data_type(), wanted: N3DDataType::Vec3 })
        }
    }

    /// Downcast to a scalar.
    pub fn try_to_scalar(self) -> (r: Result<Fixed, EvalError>)
        ensures
            scalar_result_view(r) == view_as_scalar(self@),
            self matches N3DValueType::Scalar { value } ==> r == Ok::<Fixed, EvalError>(value),
    {
        if let N3DValueType::Scalar { value } = self {
            Ok(value)
        } else {
            Err(EvalError::BadCast { found: self.data_type(), wanted: N3DDataType::Scalar })
        }
    }

    /// Downcast to a point-space expression.
    pub fn try_to_sdf_position(self) -> (r: Result<String, EvalError>)
        ensures
            text_result_view(r) == view_as_sdf_position(self@),
    {
        if let N3DValueType::SDFPosition { value } = self {
            Ok(value)
        } else {
            Err(EvalError::BadCast { found: self.data_type(), wanted: N3DDataType::SDFPosition })
        }
    }

    /// Downcast to a distance expression.
    pub fn try_to_sdf_volume(self) -> (r: Result<String, EvalError>)
        ensures
            text_result_view(r) == view_as_sdf_volume(self@),
    {
        if let N3DValueType::SDFVolume { value } = self {
            Ok(value)
        } else {
            Err(EvalError::BadCast { found: self.data_type(), wanted: N3DDataType::SDFVolume })
        }
    }
}

impl Clone for N3DValueType {
    /// An exact copy; cached outputs are handed out by value.
    fn clone(&self) -> (r: N3DValueType)
        ensures
            r == *self,
    {
        match self {
            N3DValueType::Scalar { value } => N3DValueType::Scalar { value: *value },
            N3DValueType::Vec2 { value } => N3DValueType::Vec2 { value: *value },
            N3DValueType::Vec3 { value } => N3DValueType::Vec3 { value: *value },
            N3DValueType::SDFPosition { value } => N3DValueType::SDFPosition {
                value: value.clone(),
            },
            N3DValueType::SDFVolume { value } => N3DValueType::SDFVolume { value: value.clone() },
        }
    }
}

impl Default for N3DValueType {
    /// A placeholder demanded by generic plumbing, never read for its
    /// meaning: zero.
    fn default() -> (r: N3DValueType)
        ensures
            r@ == (ValueView::Scalar { value: 0 }),
    {
        N3DValueType::Scalar { value: Fixed::zero() }
    }
}

impl N3DDataType {
    /// The category's display name.
    pub open spec fn spec_name(&self) -> Seq<char> {
        match self {
            N3DDataType::Scalar => "scalar"@,
            N3DDataType::Vec2 => "vec2"@,
            N3DDataType::Vec3 => "vec3"@,
            N3DDataType::SDFPosition => "SDF position"@,
            N3DDataType::SDFVolume => "SDF Volume"@,
        }
    }

    pub fn name(&self) -> (r: &str)
        ensures
            r@ == self.spec_name(),
    {
        match self {
            N3DDataType::Scalar => "scalar",
            N3DDataType::Vec2 => "vec2",
            N3DDataType::Vec3 => "vec3",
            N3DDataType::SDFPosition => "SDF position",
            N3DDataType::SDFVolume => "SDF Volume",
        }
    }
}

impl EvalError {
    /// The human-readable failure text shown by the active-node display.
    pub open spec fn spec_message(&self) -> Seq<char> {
        match self {
            EvalError::BadCast { found, wanted } => "Invalid cast from "@ + found.spec_name()
                + " to "@ + wanted.spec_name(),
            EvalError::MissingInput => "Node is missing the referenced input port"@,
            EvalError::MissingOutput => "Node is missing the referenced output port"@,
            EvalError::ViewerError => "Viewer node error"@,
        }
    }

    /// Formats the failure for display.
    pub fn message(&self) -> (r: String)
        ensures
            r@ == self.spec_message(),
    {
        match self {
            EvalError::BadCast { found, wanted } => {
                let mut s = String::from_str("Invalid cast from ");
                s.append(found.name());
                s.append(" to ");
                s.append(wanted.name());
                proof {
                    assert(s@ =~= self.spec_message());
                }
                s
            },
            EvalError::MissingInput => String::from_str(
                "Node is missing the referenced input port",
            ),
            EvalError::MissingOutput => String::from_str(
                "Node is missing the referenced output port",
            ),
            EvalError::ViewerError => String::from_str("Viewer node error"),
        }
    }
}

/// The informal display text for a value, used by the active-node readout.
pub open spec fn spec_describe_view(v: ValueView) -> Seq<char> {
    match v {
        ValueView::Scalar { value } => "Scalar { value: "@ + spec_fixed_text(value) + " }"@,
        ValueView::Vec2 { x, y } => "Vec2 { value: ("@ + spec_fixed_text(x) + ", "@
            + spec_fixed_text(y) + ") }"@,
        ValueView::Vec3 { x, y, z } => "Vec3 { value: ("@ + spec_fixed_text(x) + ", "@
            + spec_fixed_text(y) + ", "@ + spec_fixed_text(z) + ") }"@,
        ValueView::SDFPosition { text } => "SDFPosition { value: "@ + text + " }"@,
        ValueView::SDFVolume { text } => "SDFVolume { value: "@ + text + " }"@,
    }
}

impl N3DValueType {
    /// Formats the value for the active-node readout.
    pub fn describe(&self) -> (r: String)
        ensures
            r@ == spec_describe_view(self@),
    {
        match self {
            N3DValueType::Scalar { value } => {
                let mut s = String::from_str("Scalar { value: ");
                let t = value.to_text();
                s.append(t.as_str());
                s.append(" }");
                proof {
                    assert(s@ =~= spec_describe_view(self@));
                }
                s
            },
            N3DValueType::Vec2 { value } => {
                let mut s = String::from_str("Vec2 { value: (");
                let tx = value.x.to_text();
                s.append(tx.as_str());
                s.append(", ");
                let ty = value.y.to_text();
                s.append(ty.as_str());
                s.append(") }");
                proof {
                    assert(s@ =~= spec_describe_view(self@));
                }
                s
            },
            N3DValueType::Vec3 { value } => {
                let mut s = String::from_str("Vec3 { value: (");
                let tx = value.x.to_text();
                s.append(tx.as_str());
                s.append(", ");
                let ty = value.y.to_text();
                s.append(ty.as_str());
                s.append(", ");
                let tz = value.z.to_text();
                s.append(tz.as_str());
                s.append(") }");
                proof {
                    assert(s@ =~= spec_describe_view(self@));
                }
                s
            },
            N3DValueType::SDFPosition { value } => {
                let mut s = String::from_str("SDFPosition { value: ");
                s.append(value.as_str());
                s.append(" }");
                proof {
                    assert(s@ =~= spec_describe_view(self@));
                }
                s
            },
            N3DValueType::SDFVolume { value } => {
                let mut s = String::from_str("SDFVolume { value: ");
                s.append(value.as_str());
                s.append(" }");
                proof {
                    assert(s@ =~= spec_describe_view(self@));
                }
                s
            },
        }
    }
}

/// An input port: its stored constant and, possibly, a wire to an upstream
/// output, identified by that output's key.
pub struct InputParam {
    pub name: String,
    pub typ: N3DDataType,
    pub value: N3DValueType,
    pub kind: InputParamKind,
    pub connection: Option<u64>,
}

/// An output port.
pub struct OutputParam {
    pub name: String,
    pub typ: N3DDataType,
}

/// One node: its template tag and its ports.
pub struct Node {
    pub user_data: N3DNodeData,
    pub inputs: Vec<InputParam>,
    pub outputs: Vec<OutputParam>,
}

/// The dataflow graph: nodes in topological order.
pub struct Graph {
    pub nodes: Vec<Node>,
}

/// A cap on the node count so output keys stay comfortably in range.
pub const MAX_NODES: usize = 0x1000_0000;

/// Output ports per node reserved in the key space.
pub const PORT_SLOTS: u64 = 8;

/// The cache key of output `port` of node `node`.
pub open spec fn output_key(node: int, port: int) -> u64 {
    (node * PORT_SLOTS as int + port) as u64
}

/// Decoding an output key recovers the node and port it was built from.
pub proof fn lemma_output_key_decode(n: int, p: int)
    requires
        0 <= n < MAX_NODES,
        0 <= p < PORT_SLOTS as int,
    ensures
        output_key(n, p) as int == n * PORT_SLOTS as int + p,
        output_key(n, p) as int / PORT_SLOTS as int == n,
        output_key(n, p) as int % PORT_SLOTS as int == p,
{
    assert(0 <= n * 8 + p < 0x100000000) by (nonlinear_arith)
        requires
            0 <= n < 0x1000_0000,
            0 <= p < 8,
    ;
    assert((n * 8 + p) / 8 == n && (n * 8 + p) % 8 == p) by (nonlinear_arith)
        requires
            0 <= p < 8,
    ;
}

/// Declaration of one input port: what a template fixes about it.
pub struct InputDecl {
    pub name: Seq<char>,
    pub typ: N3DDataType,
    pub kind: InputParamKind,
    pub default: ValueView,
}

/// Declaration of one output port.
pub struct OutputDecl {
    pub name: Seq<char>,
    pub typ: N3DDataType,
}

pub open spec fn in_scalar(name: Seq<char>) -> InputDecl {
    InputDecl {
        name,
        typ: N3DDataType::Scalar,
        kind: InputParamKind::ConnectionOrConstant,
        default: ValueView::Scalar { value: 0 },
    }
}

pub open spec fn in_vec2(name: Seq<char>) -> InputDecl {
    InputDecl {
        name,
        typ: N3DDataType::Vec2,
        kind: InputParamKind::ConnectionOrConstant,
        default: ValueView::Vec2 { x: 0, y: 0 },
    }
}

pub open spec fn in_vec3(name: Seq<char>) -> InputDecl {
    InputDecl {
        name,
        typ: N3DDataType::Vec3,
        kind: InputParamKind::ConnectionOrConstant,
        default: ValueView::Vec3 { x: 0, y: 0, z: 0 },
    }
}

pub open spec fn in_sdf_position(name: Seq<char>) -> InputDecl {
    InputDecl {
        name,
        typ: N3DDataType::SDFPosition,
        kind: InputParamKind::ConnectionOrConstant,
        default: ValueView::SDFPosition { text: "p"@ },
    }
}

pub open spec fn in_sdf_volume(name: Seq<char>) -> InputDecl {
    InputDecl {
        name,
        typ: N3DDataType::SDFVolume,
        kind: InputParamKind::ConnectionOnly,
        default: ValueView::SDFVolume { text: Seq::empty() },
    }
}

pub open spec fn out_port(name: Seq<char>, typ: N3DDataType) -> OutputDecl {
    OutputDecl { name, typ }
}

/// The input ports a template declares, in order.
pub open spec fn template_input_decls(t: N3DNodeTemplate) -> Seq<InputDecl> {
    match t {
        N3DNodeTemplate::NewScalar => seq![in_scalar("value"@)],
        N3DNodeTemplate::ScalarAdd => seq![in_scalar("A"@), in_scalar("B"@)],
        N3DNodeTemplate::ScalarSub => seq![in_scalar("A"@), in_scalar("B"@)],
        N3DNodeTemplate::NewVec2 => seq![in_scalar("x"@), in_scalar("y"@)],
        N3DNodeTemplate::Vec2Add => seq![in_vec2("v1"@), in_vec2("v2"@)],
        N3DNodeTemplate::Vec2Subtract => seq![in_vec2("v1"@), in_vec2("v2"@)],
        N3DNodeTemplate::Vec2ScalarMul => seq![in_scalar("scalar"@), in_vec2("vector"@)],
        N3DNodeTemplate::NewVec3 => seq![in_scalar("x"@), in_scalar("y"@), in_scalar("z"@)],
        N3DNodeTemplate::Vec3Add => seq![in_vec3("v1"@), in_vec3("v2"@)],
        N3DNodeTemplate::Vec3Sub => seq![in_vec3("v1"@), in_vec3("v2"@)],
        N3DNodeTemplate::Vec3Dot => seq![in_vec3("v1"@), in_vec3("v2"@)],
        N3DNodeTemplate::Vec3Cross => seq![in_vec3("v1"@), in_vec3("v2"@)],
        N3DNodeTemplate::SDFPosition => seq![],
        N3DNodeTemplate::SDFTranslate => seq![
            in_vec3("translation"@),
            in_sdf_position("sdf position"@),
        ],
        N3DNodeTemplate::SDFBox => seq![
            in_vec3("dimensions"@),
            in_scalar("fillet"@),
            in_sdf_position("sdf position"@),
        ],
        N3DNodeTemplate::SDFUnion => seq![in_sdf_volume("sdf 1"@), in_sdf_volume("sdf 2"@)],
        N3DNodeTemplate::SDFViewer => seq![in_sdf_volume("sdf"@)],
    }
}

/// The output ports a template declares, in order. Every template offers at
/// most the single conventional `out` port; the viewer sink offers none.
pub open spec fn template_output_decls(t: N3DNodeTemplate) -> Seq<OutputDecl> {
    match t {
        N3DNodeTemplate::NewScalar => seq![out_port("out"@, N3DDataType::Scalar)],
        N3DNodeTemplate::ScalarAdd => seq![out_port("out"@, N3DDataType::Scalar)],
        N3DNodeTemplate::ScalarSub => seq![out_port("out"@, N3DDataType::Scalar)],
        N3DNodeTemplate::NewVec2 => seq![out_port("out"@, N3DDataType::Vec2)],
        N3DNodeTemplate::Vec2Add => seq![out_port("out"@, N3DDataType::Vec2)],
        N3DNodeTemplate::Vec2Subtract => seq![out_port("out"@, N3DDataType::Vec2)],
        N3DNodeTemplate::Vec2ScalarMul => seq![out_port("out"@, N3DDataType::Vec2)],
        N3DNodeTemplate::NewVec3 => seq![out_port("out"@, N3DDataType::Vec3)],
        N3DNodeTemplate::Vec3Add => seq![out_port("out"@, N3DDataType::Vec3)],
        N3DNodeTemplate::Vec3Sub => seq![out_port("out"@, N3DDataType::Vec3)],
        N3DNodeTemplate::Vec3Dot => seq![out_port("out"@, N3DDataType::Scalar)],
        N3DNodeTemplate::Vec3Cross => seq![out_port("out"@, N3DDataType::Vec3)],
        N3DNodeTemplate::SDFPosition => seq![out_port("out"@, N3DDataType::SDFPosition)],
        N3DNodeTemplate::SDFTranslate => seq![out_port("out"@, N3DDataType::SDFPosition)],
        N3DNodeTemplate::SDFBox => seq![out_port("out"@, N3DDataType::SDFVolume)],
        N3DNodeTemplate::SDFUnion => seq![out_port("out"@, N3DDataType::SDFVolume)],
        N3DNodeTemplate::SDFViewer => seq![],
    }
}

/// First input port with the given name, scanning from position `i`.
pub open spec fn find_input_from(inputs: Seq<InputParam>, name: Seq<char>, i: int) -> Option<int>
    decreases inputs.len() - i,
{
    if i < 0 || i >= inputs.len() {
        None
    } else if inputs[i].name@ == name {
        Some(i)
    } else {
        find_input_from(inputs, name, i + 1)
    }
}

/// First output port with the given name, scanning from position `i`.
pub open spec fn find_output_from(outputs: Seq<OutputParam>, name: Seq<char>, i: int) -> Option<
    int,
>
    decreases outputs.len() - i,
{
    if i < 0 || i >= outputs.len() {
        None
    } else if outputs[i].name@ == name {
        Some(i)
    } else {
        find_output_from(outputs, name, i + 1)
    }
}

/// Scans a node's input ports for the given name.
pub fn find_input_index(inputs: &Vec<InputParam>, key: &String) -> (r: Option<usize>)
    ensures
        match r {
            Some(u) => u < inputs@.len() && find_input_from(inputs@, key@, 0) == Some(u as int),
            None => find_input_from(inputs@, key@, 0) is None,
        },
{
    let mut i: usize = 0;
    while i < inputs.len()
        invariant
            i <= inputs@.len(),
            find_input_from(inputs@, key@, 0) == find_input_from(inputs@, key@, i as int),
        decreases inputs@.len() - i,
    {
        if key.eq(&inputs[i].name) {
            return Some(i);
        }
        i += 1;
    }
    None
}

/// Scans a node's output ports for the given name.
pub fn find_output_index(outputs: &Vec<OutputParam>, key: &String) -> (r: Option<usize>)
    ensures
        match r {
            Some(u) => u < outputs@.len() && find_output_from(outputs@, key@, 0) == Some(u as int),
            None => find_output_from(outputs@, key@, 0) is None,
        },
{
    let mut i: usize = 0;
    while i < outputs.len()
        invariant
            i <= outputs@.len(),
            find_output_from(outputs@, key@, 0) == find_output_from(outputs@, key@, i as int),
        decreases outputs@.len() - i,
    {
        if key.eq(&outputs[i].name) {
            return Some(i);
        }
        i += 1;
    }
    None
}

/// A node's ports are exactly the ones its template declares.
pub open spec fn node_ports_wf(node: Node) -> bool {
    let ins = template_input_decls(node.user_data.template);
    let outs = template_output_decls(node.user_data.template);
    &&& node.inputs@.len() == ins.len()
    &&& forall|j: int|
        0 <= j < ins.len() ==> {
            &&& (#[trigger] node.inputs@[j]).name@ == ins[j].name
            &&& node.inputs@[j].typ == ins[j].typ
            &&& node.inputs@[j].kind == ins[j].kind
        }
    &&& node.outputs@.len() == outs.len()
    &&& forall|j: int|
        0 <= j < outs.len() ==> {
            &&& (#[trigger] node.outputs@[j]).name@ == outs[j].name
            &&& node.outputs@[j].typ == outs[j].typ
        }
}

/// A freshly built node: declared ports, declared default constants, and no
/// connections yet.
pub open spec fn node_fresh_wf(node: Node) -> bool {
    let ins = template_input_decls(node.user_data.template);
    &&& node_ports_wf(node)
    &&& forall|j: int|
        0 <= j < ins.len() ==> (#[trigger] node.inputs@[j]).value@ == ins[j].default
    &&& forall|j: int| 0 <= j < ins.len() ==> (#[trigger] node.inputs@[j]).connection is None
}

impl Graph {
    /// The wire of input `i` of node `n` is sound: it points at an existing
    /// output port of a strictly earlier node.
    pub open spec fn connection_wf(self, n: int, i: int) -> bool {
        match self.nodes@[n].inputs@[i].connection {
            None => true,
            Some(k) => {
                let un = k as int / PORT_SLOTS as int;
                let up = k as int % PORT_SLOTS as int;
                &&& un < n
                &&& up < self.nodes@[un].outputs@.len()
            },
        }
    }

    /// Well-formedness of the whole graph: bounded size, every node's ports
    /// as its template declares them, and every wire pointing backwards in
    /// the topological order — the evaluator's termination witness.
    pub open spec fn wf(self) -> bool {
        &&& self.nodes@.len() <= MAX_NODES
        &&& forall|n: int|
            0 <= n < self.nodes@.len() ==> node_ports_wf(#[trigger] self.nodes@[n])
        &&& forall|n: int, i: int|
            0 <= n < self.nodes@.len() && 0 <= i < self.nodes@[n].inputs@.len()
                ==> #[trigger] self.connection_wf(n, i)
    }

    pub fn new() -> (r: Graph)
        ensures
            r.nodes@.len() == 0,
            r.wf(),
    {
        Graph { nodes: Vec::new() }
    }

    /// Appends an empty node carrying the given user data and returns its
    /// id; the template's `build_node` then fills in the ports.
    pub fn add_node(&mut self, user_data: N3DNodeData) -> (id: usize)
        requires
            old(self).nodes@.len() < MAX_NODES,
        ensures
            id == old(self).nodes@.len(),
            final(self).nodes@.len() == old(self).nodes@.len() + 1,
            forall|m: int|
                0 <= m < old(self).nodes@.len()
                    ==> final(self).nodes@[m] == old(self).nodes@[m],
            final(self).nodes@[id as int].user_data == user_data,
            final(self).nodes@[id as int].inputs@.len() == 0,
            final(self).nodes@[id as int].outputs@.len() == 0,
    {
        let id = self.nodes.len();
        self.nodes.push(Node { user_data, inputs: Vec::new(), outputs: Vec::new() });
        id
    }

    /// Adds a node of the given template with all its declared ports: the
    /// combined step the editor takes when the user picks a template from
    /// the finder. A well-formed graph stays well-formed, so a graph grown
    /// through this method is always ready for evaluation.
    pub fn add_template_node(&mut self, template: N3DNodeTemplate) -> (id: usize)
        requires
            old(self).wf(),
            old(self).nodes@.len() < MAX_NODES,
        ensures
            final(self).wf(),
            id == old(self).nodes@.len(),
            final(self).nodes@.len() == old(self).nodes@.len() + 1,
            forall|m: int|
                0 <= m < old(self).nodes@.len()
                    ==> final(self).nodes@[m] == old(self).nodes@[m],
            final(self).nodes@[id as int].user_data == (N3DNodeData { template }),
            node_fresh_wf(final(self).nodes@[id as int]),
    {
        let id = self.add_node(N3DNodeData { template });
        template.build_node(self, id);
        proof {
            assert forall|n: int| 0 <= n < self.nodes@.len() implies node_ports_wf(
                #[trigger] self.nodes@[n],
            ) by {
                if n == id {
                    assert(node_fresh_wf(self.nodes@[n]));
                } else {
                    assert(node_ports_wf(old(self).nodes@[n]));
                }
            }
            assert forall|n: int, i: int|
                0 <= n < self.nodes@.len() && 0 <= i < self.nodes@[n].inputs@.len()
                implies #[trigger] self.connection_wf(n, i) by {
                if n == id {
                    assert(self.nodes@[n].inputs@[i].connection is None);
                } else {
                    assert(old(self).connection_wf(n, i));
                }
            }
            assert(self.wf());
        }
        id
    }

    /// Appends an input port to a node, with no connection yet.
    pub fn add_input_param(
        &mut self,
        node_id: usize,
        name: String,
        typ: N3DDataType,
        value: N3DValueType,
        kind: InputParamKind,
    )
        requires
            node_id < old(self).nodes@.len(),
        ensures
            final(self).nodes@.len() == old(self).nodes@.len(),
            forall|m: int|
                0 <= m < old(self).nodes@.len() && m != node_id
                    ==> final(self).nodes@[m] == old(self).nodes@[m],
            final(self).nodes@[node_id as int].user_data
                == old(self).nodes@[node_id as int].user_data,
            final(self).nodes@[node_id as int].outputs@
                == old(self).nodes@[node_id as int].outputs@,
            final(self).nodes@[node_id as int].inputs@.len()
                == old(self).nodes@[node_id as int].inputs@.len() + 1,
            final(self).nodes@[node_id as int].inputs@.drop_last()
                == old(self).nodes@[node_id as int].inputs@,
            ({
                let p = final(self).nodes@[node_id as int].inputs@.last();
                &&& p.name@ == name@
                &&& p.typ == typ
                &&& p.value == value
                &&& p.kind == kind
                &&& p.connection is None
            }),
    {
        let node = &mut self.nodes[node_id];
        node.inputs.push(InputParam { name, typ, value, kind, connection: None });
        proof {
            assert(final(self).nodes@[node_id as int].inputs@.drop_last() =~= old(
                self,
            ).nodes@[node_id as int].inputs@);
        }
    }

    /// Appends an output port to a node.
    pub fn add_output_param(&mut self, node_id: usize, name: String, typ: N3DDataType)
        requires
            node_id < old(self).nodes@.len(),
        ensures
            final(self).nodes@.len() == old(self).nodes@.len(),
            forall|m: int|
                0 <= m < old(self).nodes@.len() && m != node_id
                    ==> final(self).nodes@[m] == old(self).nodes@[m],
            final(self).nodes@[node_id as int].user_data
                == old(self).nodes@[node_id as int].user_data,
            final(self).nodes@[node_id as int].inputs@
                == old(self).nodes@[node_id as int].inputs@,
            final(self).nodes@[node_id as int].outputs@.len()
                == old(self).nodes@[node_id as int].outputs@.len() + 1,
            final(self).nodes@[node_id as int].outputs@.drop_last()
                == old(self).nodes@[node_id as int].outputs@,
            ({
                let p = final(self).nodes@[node_id as int].outputs@.last();
                &&& p.name@ == name@
                &&& p.typ == typ
            }),
    {
        let node = &mut self.nodes[node_id];
        node.outputs.push(OutputParam { name, typ });
        proof {
            assert(final(self).nodes@[node_id as int].outputs@.drop_last() =~= old(
                self,
            ).nodes@[node_id as int].outputs@);
        }
    }

    /// Wires input `in_name` of node `in_node` to output `out_name` of the
    /// strictly earlier node `out_node`. Returns whether both ports exist;
    /// when one is missing, nothing changes.
    pub fn add_connection(
        &mut self,
        out_node: usize,
        out_name: &str,
        in_node: usize,
        in_name: &str,
    ) -> (ok: bool)
        requires
            out_node < in_node,
            in_node < old(self).nodes@.len(),
            out_node < MAX_NODES,
            old(self).nodes@[out_node as int].outputs@.len() <= PORT_SLOTS as int,
        ensures
            final(self).nodes@.len() == old(self).nodes@.len(),
            old(self).wf() ==> final(self).wf(),
            forall|m: int|
                0 <= m < old(self).nodes@.len() && m != in_node
                    ==> final(self).nodes@[m] == old(self).nodes@[m],
            match (
                find_output_from(old(self).nodes@[out_node as int].outputs@, out_name@, 0),
                find_input_from(old(self).nodes@[in_node as int].inputs@, in_name@, 0),
            ) {
                (Some(p), Some(i)) => {
                    let n0 = old(self).nodes@[in_node as int];
                    let n1 = final(self).nodes@[in_node as int];
                    &&& ok
                    &&& n1.user_data == n0.user_data
                    &&& n1.outputs@ == n0.outputs@
                    &&& n1.inputs@.len() == n0.inputs@.len()
                    &&& forall|j: int|
                        0 <= j < n0.inputs@.len() && j != i
                            ==> n1.inputs@[j] == n0.inputs@[j]
                    &&& n1.inputs@[i].name@ == n0.inputs@[i].name@
                    &&& n1.inputs@[i].typ == n0.inputs@[i].typ
                    &&& n1.inputs@[i].value == n0.inputs@[i].value
                    &&& n1.inputs@[i].kind == n0.inputs@[i].kind
                    &&& n1.inputs@[i].connection == Some(output_key(out_node as int, p))
                },
                _ => {
                    &&& !ok
                    &&& final(self).nodes@[in_node as int] == old(self).nodes@[in_node as int]
                },
            },
    {
        let out_key = String::from_str(out_name);
        let port = find_output_index(&self.nodes[out_node].outputs, &out_key);
        let in_key = String::from_str(in_name);
        let slot = find_input_index(&self.nodes[in_node].inputs, &in_key);
        match (port, slot) {
            (Some(p), Some(i)) => {
                let key: u64 = (out_node as u64) * PORT_SLOTS + (p as u64);
                {
                    let node = &mut self.nodes[in_node];
                    let input = &mut node.inputs[i];
                    input.connection = Some(key);
                }
                proof {
                    if old(self).wf() {
                        lemma_output_key_decode(out_node as int, p as int);
                        assert forall|n: int|
                            0 <= n < self.nodes@.len() implies node_ports_wf(
                            #[trigger] self.nodes@[n],
                        ) by {
                            assert(node_ports_wf(old(self).nodes@[n]));
                        }
                        assert forall|n: int, i2: int|
                            0 <= n < self.nodes@.len() && 0 <= i2
                                < self.nodes@[n].inputs@.len() implies #[trigger] self
                            .connection_wf(n, i2) by {
                            if !(n == in_node && i2 == i) {
                                assert(old(self).connection_wf(n, i2));
                            }
                        }
                        assert(self.wf());
                    }
                }
                true
            },
            _ => false,
        }
    }

    /// Overwrites the stored constant of the named input, as the inline
    /// widget does. Returns whether the port exists; when it does not,
    /// nothing changes.
    pub fn set_input_value(&mut self, node_id: usize, name: &str, value: N3DValueType) -> (ok:
        bool)
        requires
            node_id < old(self).nodes@.len(),
        ensures
            final(self).nodes@.len() == old(self).nodes@.len(),
            old(self).wf() ==> final(self).wf(),
            forall|m: int|
                0 <= m < old(self).nodes@.len() && m != node_id
                    ==> final(self).nodes@[m] == old(self).nodes@[m],
            match find_input_from(old(self).nodes@[node_id as int].inputs@, name@, 0) {
                None => !ok && final(self).nodes@[node_id as int] == old(
                    self,
                ).nodes@[node_id as int],
                Some(i) => {
                    let n0 = old(self).nodes@[node_id as int];
                    let n1 = final(self).nodes@[node_id as int];
                    &&& ok
                    &&& n1.user_data == n0.user_data
                    &&& n1.outputs@ == n0.outputs@
                    &&& n1.inputs@.len() == n0.inputs@.len()
                    &&& forall|j: int|
                        0 <= j < n0.inputs@.len() && j != i
                            ==> n1.inputs@[j] == n0.inputs@[j]
                    &&& n1.inputs@[i].name@ == n0.inputs@[i].name@
                    &&& n1.inputs@[i].typ == n0.inputs@[i].typ
                    &&& n1.inputs@[i].kind == n0.inputs@[i].kind
                    &&& n1.inputs@[i].connection == n0.inputs@[i].connection
                    &&& n1.inputs@[i].value == value
                },
            },
    {
        let key = String::from_str(name);
        match find_input_index(&self.nodes[node_id].inputs, &key) {
            None => false,
            Some(i) => {
                {
                    let node = &mut self.nodes[node_id];
                    let input = &mut node.inputs[i];
                    input.value = value;
                }
                proof {
                    if old(self).wf() {
                        self.lemma_port_shape_preserves_wf(*old(self));
                    }
                }
                true
            },
        }
    }

    /// Well-formedness only looks at node count, port names, types, kinds
    /// and connections; a graph agreeing with a well-formed one on those is
    /// well-formed too.
    proof fn lemma_port_shape_preserves_wf(self, g0: Graph)
        requires
            g0.wf(),
            self.nodes@.len() == g0.nodes@.len(),
            forall|n: int|
                0 <= n < g0.nodes@.len() ==> {
                    let a = #[trigger] self.nodes@[n];
                    let b = g0.nodes@[n];
                    &&& a.user_data == b.user_data
                    &&& a.outputs@ == b.outputs@
                    &&& a.inputs@.len() == b.inputs@.len()
                    &&& forall|j: int|
                        0 <= j < b.inputs@.len() ==> {
                            &&& (#[trigger] a.inputs@[j]).name@ == b.inputs@[j].name@
                            &&& a.inputs@[j].typ == b.inputs@[j].typ
                            &&& a.inputs@[j].kind == b.inputs@[j].kind
                            &&& a.inputs@[j].connection == b.inputs@[j].connection
                        }
                },
        ensures
            self.wf(),
    {
        assert forall|n: int| 0 <= n < self.nodes@.len() implies node_ports_wf(
            #[trigger] self.nodes@[n],
        ) by {
            assert(node_ports_wf(g0.nodes@[n]));
        }
        assert forall|n: int, i: int|
            0 <= n < self.nodes@.len() && 0 <= i < self.nodes@[n].inputs@.len()
            implies #[trigger] self.connection_wf(n, i) by {
            assert(g0.connection_wf(n, i));
        }
    }
}

impl N3DNodeTemplate {
    /// Fills a freshly added, empty node with exactly the ports this
    /// template declares, each input carrying its declared default constant
    /// and no connection.
    pub fn build_node(&self, graph: &mut Graph, node_id: usize)
        requires
            node_id < old(graph).nodes@.len(),
            old(graph).nodes@[node_id as int].user_data.template == *self,
            old(graph).nodes@[node_id as int].inputs@.len() == 0,
            old(graph).nodes@[node_id as int].outputs@.len() == 0,
        ensures
            final(graph).nodes@.len() == old(graph).nodes@.len(),
            forall|m: int|
                0 <= m < old(graph).nodes@.len() && m != node_id
                    ==> final(graph).nodes@[m] == old(graph).nodes@[m],
            final(graph).nodes@[node_id as int].user_data
                == old(graph).nodes@[node_id as int].user_data,
            node_fresh_wf(final(graph).nodes@[node_id as int]),
    {
        match self {
            N3DNodeTemplate::NewScalar => {
                input_scalar(graph, node_id, "value");
                output_scalar(graph, node_id, "out");
            },
            N3DNodeTemplate::ScalarAdd => {
                input_scalar(graph, node_id, "A");
                input_scalar(graph, node_id, "B");
                output_scalar(graph, node_id, "out");
            },
            N3DNodeTemplate::ScalarSub => {
                input_scalar(graph, node_id, "A");
                input_scalar(graph, node_id, "B");
                output_scalar(graph, node_id, "out");
            },
            N3DNodeTemplate::NewVec2 => {
                input_scalar(graph, node_id, "x");
                input_scalar(graph, node_id, "y");
                output_vec2(graph, node_id, "out");
            },
            N3DNodeTemplate::Vec2Add => {
                input_vec2(graph, node_id, "v1");
                input_vec2(graph, node_id, "v2");
                output_vec2(graph, node_id, "out");
            },
            N3DNodeTemplate::Vec2Subtract => {
                input_vec2(graph, node_id, "v1");
                input_vec2(graph, node_id, "v2");
                output_vec2(graph, node_id, "out");
            },
            N3DNodeTemplate::Vec2ScalarMul => {
                input_scalar(graph, node_id, "scalar");
                input_vec2(graph, node_id, "vector");
                output_vec2(graph, node_id, "out");
            },
            N3DNodeTemplate::NewVec3 => {
                input_scalar(graph, node_id, "x");
                input_scalar(graph, node_id, "y");
                input_scalar(graph, node_id, "z");
                output_vec3(graph, node_id, "out");
            },
            N3DNodeTemplate::Vec3Add => {
                input_vec3(graph, node_id, "v1");
                input_vec3(graph, node_id, "v2");
                output_vec3(graph, node_id, "out");
            },
            N3DNodeTemplate::Vec3Sub => {
                input_vec3(graph, node_id, "v1");
                input_vec3(graph, node_id, "v2");
                output_vec3(graph, node_id, "out");
            },
            N3DNodeTemplate::Vec3Dot => {
                input_vec3(graph, node_id, "v1");
                input_vec3(graph, node_id, "v2");
                output_scalar(graph, node_id, "out");
            },
            N3DNodeTemplate::Vec3Cross => {
                input_vec3(graph, node_id, "v1");
                input_vec3(graph, node_id, "v2");
                output_vec3(graph, node_id, "out");
            },
            N3DNodeTemplate::SDFPosition => {
                output_sdf_position(graph, node_id, "out");
            },
            N3DNodeTemplate::SDFTranslate => {
                input_vec3(graph, node_id, "translation");
                input_sdf_position(graph, node_id, "sdf position");
                output_sdf_position(graph, node_id, "out");
            },
            N3DNodeTemplate::SDFBox => {
                input_vec3(graph, node_id, "dimensions");
                input_scalar(graph, node_id, "fillet");
                input_sdf_position(graph, node_id, "sdf position");
                output_sdf_volume(graph, node_id, "out");
            },
            N3DNodeTemplate::SDFUnion => {
                input_sdf_volume(graph, node_id, "sdf 1");
                input_sdf_volume(graph, node_id, "sdf 2");
                output_sdf_volume(graph, node_id, "out");
            },
            N3DNodeTemplate::SDFViewer => {
                input_sdf_volume(graph, node_id, "sdf");
            },
        }
    }

}

/// The full palette the node finder offers.
pub struct AllN3DNodeTemplates;

impl AllN3DNodeTemplates {
    /// Every template, in its display order.
    pub fn all_kinds(&self) -> (r: Vec<N3DNodeTemplate>)
        ensures
            r@ == seq![
                N3DNodeTemplate::NewScalar,
                N3DNodeTemplate::NewVec2,
                N3DNodeTemplate::ScalarAdd,
                N3DNodeTemplate::ScalarSub,
                N3DNodeTemplate::Vec2Add,
                N3DNodeTemplate::Vec2Subtract,
                N3DNodeTemplate::Vec2ScalarMul,
                N3DNodeTemplate::NewVec3,
                N3DNodeTemplate::Vec3Add,
                N3DNodeTemplate::Vec3Sub,
                N3DNodeTemplate::Vec3Dot,
                N3DNodeTemplate::Vec3Cross,
                N3DNodeTemplate::SDFPosition,
                N3DNodeTemplate::SDFTranslate,
                N3DNodeTemplate::SDFBox,
                N3DNodeTemplate::SDFUnion,
                N3DNodeTemplate::SDFViewer,
            ],
    {
        let mut v: Vec<N3DNodeTemplate> = Vec::new();
        v.push(N3DNodeTemplate::NewScalar);
        v.push(N3DNodeTemplate::NewVec2);
        v.push(N3DNodeTemplate::ScalarAdd);
        v.push(N3DNodeTemplate::ScalarSub);
        v.push(N3DNodeTemplate::Vec2Add);
        v.push(N3DNodeTemplate::Vec2Subtract);
        v.push(N3DNodeTemplate::Vec2ScalarMul);
        v.push(N3DNodeTemplate::NewVec3);
        v.push(N3DNodeTemplate::Vec3Add);
        v.push(N3DNodeTemplate::Vec3Sub);
        v.push(N3DNodeTemplate::Vec3Dot);
        v.push(N3DNodeTemplate::Vec3Cross);
        v.push(N3DNodeTemplate::SDFPosition);
        v.push(N3DNodeTemplate::SDFTranslate);
        v.push(N3DNodeTemplate::SDFBox);
        v.push(N3DNodeTemplate::SDFUnion);
        v.push(N3DNodeTemplate::SDFViewer);
        proof {
            assert(v@ =~= seq![
                N3DNodeTemplate::NewScalar,
                N3DNodeTemplate::NewVec2,
                N3DNodeTemplate::ScalarAdd,
                N3DNodeTemplate::ScalarSub,
                N3DNodeTemplate::Vec2Add,
                N3DNodeTemplate::Vec2Subtract,
                N3DNodeTemplate::Vec2ScalarMul,
                N3DNodeTemplate::NewVec3,
                N3DNodeTemplate::Vec3Add,
                N3DNodeTemplate::Vec3Sub,
                N3DNodeTemplate::Vec3Dot,
                N3DNodeTemplate::Vec3Cross,
                N3DNodeTemplate::SDFPosition,
                N3DNodeTemplate::SDFTranslate,
                N3DNodeTemplate::SDFBox,
                N3DNodeTemplate::SDFUnion,
                N3DNodeTemplate::SDFViewer,
            ]);
        }
        v
    }
}

/// A side effect reported by the node editor: the user pressed one of the
/// per-node buttons that select or clear the active node.
#[derive(Clone, Copy, PartialEq, Eq, Structural, Debug)]
pub enum MyResponse {
    SetActiveNode(usize),
    ClearActiveNode,
}

impl MyResponse {
    /// The selection this response leaves behind, whatever was selected
    /// before.
    pub fn apply(self) -> (r: Option<usize>)
        ensures
            match self {
                MyResponse::SetActiveNode(n) => r == Some(n),
                MyResponse::ClearActiveNode => r is None,
            },
    {
        match self {
            MyResponse::SetActiveNode(node) => Some(node),
            MyResponse::ClearActiveNode => None,
        }
    }
}

/// Adds a scalar input port with constant default `0`.
fn input_scalar(graph: &mut Graph, node_id: usize, name: &str)
    requires
        node_id < old(graph).nodes@.len(),
    ensures
        final(graph).nodes@.len() == old(graph).nodes@.len(),
        forall|m: int|
            0 <= m < old(graph).nodes@.len() && m != node_id
                ==> final(graph).nodes@[m] == old(graph).nodes@[m],
        final(graph).nodes@[node_id as int].user_data
            == old(graph).nodes@[node_id as int].user_data,
        final(graph).nodes@[node_id as int].outputs@
            == old(graph).nodes@[node_id as int].outputs@,
        final(graph).nodes@[node_id as int].inputs@.len()
            == old(graph).nodes@[node_id as int].inputs@.len() + 1,
        final(graph).nodes@[node_id as int].inputs@.drop_last()
            == old(graph).nodes@[node_id as int].inputs@,
        input_matches_decl(
            final(graph).nodes@[node_id as int].inputs@.last(),
            in_scalar(name@),
        ),
{
    graph.add_input_param(
        node_id,
        String::from_str(name),
        N3DDataType::Scalar,
        N3DValueType::Scalar { value: Fixed::zero() },
        InputParamKind::ConnectionOrConstant,
    );
}

/// Adds a two-component vector input port with constant default zero.
fn input_vec2(graph: &mut Graph, node_id: usize, name: &str)
    requires
        node_id < old(graph).nodes@.len(),
    ensures
        final(graph).nodes@.len() == old(graph).nodes@.len(),
        forall|m: int|
            0 <= m < old(graph).nodes@.len() && m != node_id
                ==> final(graph).nodes@[m] == old(graph).nodes@[m],
        final(graph).nodes@[node_id as int].user_data
            == old(graph).nodes@[node_id as int].user_data,
        final(graph).nodes@[node_id as int].outputs@
            == old(graph).nodes@[node_id as int].outputs@,
        final(graph).nodes@[node_id as int].inputs@.len()
            == old(graph).nodes@[node_id as int].inputs@.len() + 1,
        final(graph).nodes@[node_id as int].inputs@.drop_last()
            == old(graph).nodes@[node_id as int].inputs@,
        input_matches_decl(
            final(graph).nodes@[node_id as int].inputs@.last(),
            in_vec2(name@),
        ),
{
    graph.add_input_param(
        node_id,
        String::from_str(name),
        N3DDataType::Vec2,
        N3DValueType::Vec2 { value: Vector2::zero() },
        InputParamKind::ConnectionOrConstant,
    );
}

/// Adds a three-component vector input port with constant default zero.
fn input_vec3(graph: &mut Graph, node_id: usize, name: &str)
    requires
        node_id < old(graph).nodes@.len(),
    ensures
        final(graph).nodes@.len() == old(graph).nodes@.len(),
        forall|m: int|
            0 <= m < old(graph).nodes@.len() && m != node_id
                ==> final(graph).nodes@[m] == old(graph).nodes@[m],
        final(graph).nodes@[node_id as int].user_data
            == old(graph).nodes@[node_id as int].user_data,
        final(graph).nodes@[node_id as int].outputs@
            == old(graph).nodes@[node_id as int].outputs@,
        final(graph).nodes@[node_id as int].inputs@.len()
            == old(graph).nodes@[node_id as int].inputs@.len() + 1,
        final(graph).nodes@[node_id as int].inputs@.drop_last()
            == old(graph).nodes@[node_id as int].inputs@,
        input_matches_decl(
            final(graph).nodes@[node_id as int].inputs@.last(),
            in_vec3(name@),
        ),
{
    graph.add_input_param(
        node_id,
        String::from_str(name),
        N3DDataType::Vec3,
        N3DValueType::Vec3 { value: Vector3::zero() },
        InputParamKind::ConnectionOrConstant,
    );
}

/// Adds a point-space input port whose constant default is the canonical
/// sample point `p`.
fn input_sdf_position(graph: &mut Graph, node_id: usize, name: &str)
    requires
        node_id < old(graph).nodes@.len(),
    ensures
        final(graph).nodes@.len() == old(graph).nodes@.len(),
        forall|m: int|
            0 <= m < old(graph).nodes@.len() && m != node_id
                ==> final(graph).nodes@[m] == old(graph).nodes@[m],
        final(graph).nodes@[node_id as int].user_data
            == old(graph).nodes@[node_id as int].user_data,
        final(graph).nodes@[node_id as int].outputs@
            == old(graph).nodes@[node_id as int].outputs@,
        final(graph).nodes@[node_id as int].inputs@.len()
            == old(graph).nodes@[node_id as int].inputs@.len() + 1,
        final(graph).nodes@[node_id as int].inputs@.drop_last()
            == old(graph).nodes@[node_id as int].inputs@,
        input_matches_decl(
            final(graph).nodes@[node_id as int].inputs@.last(),
            in_sdf_position(name@),
        ),
{
    graph.add_input_param(
        node_id,
        String::from_str(name),
        N3DDataType::SDFPosition,
        N3DValueType::SDFPosition { value: String::from_str("p") },
        InputParamKind::ConnectionOrConstant,
    );
}

/// Adds a distance-expression input port; only a connection can supply a
/// meaningful value, the stored constant stays empty.
fn input_sdf_volume(graph: &mut Graph, node_id: usize, name: &str)
    requires
        node_id < old(graph).nodes@.len(),
    ensures
        final(graph).nodes@.len() == old(graph).nodes@.len(),
        forall|m: int|
            0 <= m < old(graph).nodes@.len() && m != node_id
                ==> final(graph).nodes@[m] == old(graph).nodes@[m],
        final(graph).nodes@[node_id as int].user_data
            == old(graph).nodes@[node_id as int].user_data,
        final(graph).nodes@[node_id as int].outputs@
            == old(graph).nodes@[node_id as int].outputs@,
        final(graph).nodes@[node_id as int].inputs@.len()
            == old(graph).nodes@[node_id as int].inputs@.len() + 1,
        final(graph).nodes@[node_id as int].inputs@.drop_last()
            == old(graph).nodes@[node_id as int].inputs@,
        input_matches_decl(
            final(graph).nodes@[node_id as int].inputs@.last(),
            in_sdf_volume(name@),
        ),
{
    graph.add_input_param(
        node_id,
        String::from_str(name),
        N3DDataType::SDFVolume,
        N3DValueType::SDFVolume { value: String::new() },
        InputParamKind::ConnectionOnly,
    );
}

/// An input port realizes a declaration: same name, type and kind, the
/// declared default as its constant, and no wire.
pub open spec fn input_matches_decl(p: InputParam, d: InputDecl) -> bool {
    &&& p.name@ == d.name
    &&& p.typ == d.typ
    &&& p.kind == d.kind
    &&& p.value@ == d.default
    &&& p.connection is None
}

/// An output port realizes a declaration.
pub open spec fn output_matches_decl(p: OutputParam, d: OutputDecl) -> bool {
    &&& p.name@ == d.name
    &&& p.typ == d.typ
}

/// Adds an output port of the given type.
fn add_output(graph: &mut Graph, node_id: usize, name: &str, typ: N3DDataType)
    requires
        node_id < old(graph).nodes@.len(),
    ensures
        final(graph).nodes@.len() == old(graph).nodes@.len(),
        forall|m: int|
            0 <= m < old(graph).nodes@.len() && m != node_id
                ==> final(graph).nodes@[m] == old(graph).nodes@[m],
        final(graph).nodes@[node_id as int].user_data
            == old(graph).nodes@[node_id as int].user_data,
        final(graph).nodes@[node_id as int].inputs@
            == old(graph).nodes@[node_id as int].inputs@,
        final(graph).nodes@[node_id as int].outputs@.len()
            == old(graph).nodes@[node_id as int].outputs@.len() + 1,
        final(graph).nodes@[node_id as int].outputs@.drop_last()
            == old(graph).nodes@[node_id as int].outputs@,
        output_matches_decl(
            final(graph).nodes@[node_id as int].outputs@.last(),
            out_port(name@, typ),
        ),
{
    graph.add_output_param(node_id, String::from_str(name), typ);
}

fn output_scalar(graph: &mut Graph, node_id: usize, name: &str)
    requires
        node_id < old(graph).nodes@.len(),
    ensures
        final(graph).nodes@.len() == old(graph).nodes@.len(),
        forall|m: int|
            0 <= m < old(graph).nodes@.len() && m != node_id
                ==> final(graph).nodes@[m] == old(graph).nodes@[m],
        final(graph).nodes@[node_id as int].user_data
            == old(graph).nodes@[node_id as int].user_data,
        final(graph).nodes@[node_id as int].inputs@
            == old(graph).nodes@[node_id as int].inputs@,
        final(graph).nodes@[node_id as int].outputs@.len()
            == old(graph).nodes@[node_id as int].outputs@.len() + 1,
        final(graph).nodes@[node_id as int].outputs@.drop_last()
            == old(graph).nodes@[node_id as int].outputs@,
        output_matches_decl(
            final(graph).nodes@[node_id as int].outputs@.last(),
            out_port(name@, N3DDataType::Scalar),
        ),
{
    add_output(graph, node_id, name, N3DDataType::Scalar);
}

fn output_vec2(graph: &mut Graph, node_id: usize, name: &str)
    requires
        node_id < old(graph).nodes@.len(),
    ensures
        final(graph).nodes@.len() == old(graph).nodes@.len(),
        forall|m: int|
            0 <= m < old(graph).nodes@.len() && m != node_id
                ==> final(graph).nodes@[m] == old(graph).nodes@[m],
        final(graph).nodes@[node_id as int].user_data
            == old(graph).nodes@[node_id as int].user_data,
        final(graph).nodes@[node_id as int].inputs@
            == old(graph).nodes@[node_id as int].inputs@,
        final(graph).nodes@[node_id as int].outputs@.len()
            == old(graph).nodes@[node_id as int].outputs@.len() + 1,
        final(graph).nodes@[node_id as int].outputs@.drop_last()
            == old(graph).nodes@[node_id as int].outputs@,
        output_matches_decl(
            final(graph).nodes@[node_id as int].outputs@.last(),
            out_port(name@, N3DDataType::Vec2),
        ),
{
    add_output(graph, node_id, name, N3DDataType::Vec2);
}

fn output_vec3(graph: &mut Graph, node_id: usize, name: &str)
    requires
        node_id < old(graph).nodes@.len(),
    ensures
        final(graph).nodes@.len() == old(graph).nodes@.len(),
        forall|m: int|
            0 <= m < old(graph).nodes@.len() && m != node_id
                ==> final(graph).nodes@[m] == old(graph).nodes@[m],
        final(graph).nodes@[node_id as int].user_data
            == old(graph).nodes@[node_id as int].user_data,
        final(graph).nodes@[node_id as int].inputs@
            == old(graph).nodes@[node_id as int].inputs@,
        final(graph).nodes@[node_id as int].outputs@.len()
            == old(graph).nodes@[node_id as int].outputs@.len() + 1,
        final(graph).nodes@[node_id as int].outputs@.drop_last()
            == old(graph).nodes@[node_id as int].outputs@,
        output_matches_decl(
            final(graph).nodes@[node_id as int].outputs@.last(),
            out_port(name@, N3DDataType::Vec3),
        ),
{
    add_output(graph, node_id, name, N3DDataType::Vec3);
}

fn output_sdf_position(graph: &mut Graph, node_id: usize, name: &str)
    requires
        node_id < old(graph).nodes@.len(),
    ensures
        final(graph).nodes@.len() == old(graph).nodes@.len(),
        forall|m: int|
            0 <= m < old(graph).nodes@.len() && m != node_id
                ==> final(graph).nodes@[m] == old(graph).nodes@[m],
        final(graph).nodes@[node_id as int].user_data
            == old(graph).nodes@[node_id as int].user_data,
        final(graph).nodes@[node_id as int].inputs@
            == old(graph).nodes@[node_id as int].inputs@,
        final(graph).nodes@[node_id as int].outputs@.len()
            == old(graph).nodes@[node_id as int].outputs@.len() + 1,
        final(graph).nodes@[node_id as int].outputs@.drop_last()
            == old(graph).nodes@[node_id as int].outputs@,
        output_matches_decl(
            final(graph).nodes@[node_id as int].outputs@.last(),
            out_port(name@, N3DDataType::SDFPosition),
        ),
{
    add_output(graph, node_id, name, N3DDataType::SDFPosition);
}

fn output_sdf_volume(graph: &mut Graph, node_id: usize, name: &str)
    requires
        node_id < old(graph).nodes@.len(),
    ensures
        final(graph).nodes@.len() == old(graph).nodes@.len(),
        forall|m: int|
            0 <= m < old(graph).nodes@.len() && m != node_id
                ==> final(graph).nodes@[m] == old(graph).nodes@[m],
        final(graph).nodes@[node_id as int].user_data
            == old(graph).nodes@[node_id as int].user_data,
        final(graph).nodes@[node_id as int].inputs@
            == old(graph).nodes@[node_id as int].inputs@,
        final(graph).nodes@[node_id as int].outputs@.len()
            == old(graph).nodes@[node_id as int].outputs@.len() + 1,
        final(graph).nodes@[node_id as int].outputs@.drop_last()
            == old(graph).nodes@[node_id as int].outputs@,
        output_matches_decl(
            final(graph).nodes@[node_id as int].outputs@.last(),
            out_port(name@, N3DDataType::SDFVolume),
        ),
{
    add_output(graph, node_id, name, N3DDataType::SDFVolume);
}

} // verus!
