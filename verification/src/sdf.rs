//! The scene expression compiler.
//!
//! Free-standing constructors emit the text of one primitive or transform
//! call each, and [`SDFBuilder`] folds a sequence of boolean operator
//! applications into a single distance-field expression, finally assembling
//! the complete shader source around it. Every emitted character is fixed by
//! the contracts, so the same operation sequence always yields the same
//! program text.

use vstd::prelude::*;
use vstd::string::*;

use crate::fixed::{spec_fixed_text, spec_sub, Fixed};
use crate::vector::Vector3;

verus! {

pub enum Shading {
    Matcap,
    Diffuse,
    Pos,
    Normal,
    TangentSpaceNormal,
}

/// The point-space expression a constructor applies to: the canonical sample
/// point `p` when no upstream expression is given.
pub open spec fn pos_view(position: Option<&str>) -> Seq<char> {
    match position {
        None => "p"@,
        Some(s) => s@,
    }
}

/// Text of a `vec3` literal with the three given components, in units.
pub open spec fn spec_vec3_text(x: int, y: int, z: int) -> Seq<char> {
    "vec3("@ + spec_fixed_text(x) + ", "@ + spec_fixed_text(y) + ", "@ + spec_fixed_text(z) + ")"@
}

/// Text of a translation applied to a point-space expression.
pub open spec fn spec_translate_text(pos: Seq<char>, x: int, y: int, z: int) -> Seq<char> {
    "translate("@ + pos + ", "@ + spec_vec3_text(x, y, z) + ")"@
}

/// Text of a rotation applied to a point-space expression.
pub open spec fn spec_rotate_text(pos: Seq<char>, x: int, y: int, z: int) -> Seq<char> {
    "rotate("@ + pos + ", "@ + spec_vec3_text(x, y, z) + ")"@
}

/// Text of a rounded box: every half-extent is shrunk by the fillet and the
/// resulting distance is expanded by it again.
pub open spec fn spec_box_text(pos: Seq<char>, x: int, y: int, z: int, fillet: int) -> Seq<char> {
    "sdf_box("@ + pos + ", "@
        + spec_vec3_text(spec_sub(x, fillet), spec_sub(y, fillet), spec_sub(z, fillet))
        + ") - "@ + spec_fixed_text(fillet)
}

/// Text of a rounded cylinder, with the same fillet convention as the box.
pub open spec fn spec_cylinder_text(pos: Seq<char>, height: int, radius: int, fillet: int) -> Seq<
    char,
> {
    "sdf_cylinder("@ + pos + ", "@ + spec_fixed_text(spec_sub(height, fillet)) + ", "@
        + spec_fixed_text(spec_sub(radius, fillet)) + ") - "@ + spec_fixed_text(fillet)
}

/// Text of a sphere; a sphere has no fillet to apply.
pub open spec fn spec_sphere_text(pos: Seq<char>, radius: int) -> Seq<char> {
    "sdf_sphere("@ + pos + ", "@ + spec_fixed_text(radius) + ")"@
}

/// Text of the hard union of two distance expressions.
pub open spec fn spec_union_text(a: Seq<char>, b: Seq<char>) -> Seq<char> {
    "op_union("@ + a + ", "@ + b + ")"@
}

/// Text of the hard difference of two distance expressions.
pub open spec fn spec_diff_text(a: Seq<char>, b: Seq<char>) -> Seq<char> {
    "op_diff("@ + a + ", "@ + b + ")"@
}

/// Text of the hard intersection of two distance expressions.
pub open spec fn spec_int_text(a: Seq<char>, b: Seq<char>) -> Seq<char> {
    "op_int("@ + a + ", "@ + b + ")"@
}

/// Text of the smooth union with blend radius `k`, in units.
pub open spec fn spec_union_smooth_text(a: Seq<char>, b: Seq<char>, k: int) -> Seq<char> {
    "op_union_smooth("@ + a + ", "@ + b + ", "@ + spec_fixed_text(k) + ")"@
}

/// Text of the smooth difference with blend radius `k`, in units.
pub open spec fn spec_diff_smooth_text(a: Seq<char>, b: Seq<char>, k: int) -> Seq<char> {
    "op_diff_smooth("@ + a + ", "@ + b + ", "@ + spec_fixed_text(k) + ")"@
}

/// Text of the smooth intersection with blend radius `k`, in units.
pub open spec fn spec_int_smooth_text(a: Seq<char>, b: Seq<char>, k: int) -> Seq<char> {
    "op_int_smooth("@ + a + ", "@ + b + ", "@ + spec_fixed_text(k) + ")"@
}

/// Concatenation of a sequence of text fragments, in order.
pub open spec fn concat_texts(frags: Seq<Seq<char>>) -> Seq<char>
    decreases frags.len(),
{
    if frags.len() == 0 {
        Seq::empty()
    } else {
        frags[0] + concat_texts(frags.drop_first())
    }
}

/// Appends the text of a `vec3` literal.
fn push_vec3(s: &mut String, x: Fixed, y: Fixed, z: Fixed)
    ensures
        final(s)@ == old(s)@ + spec_vec3_text(x.units as int, y.units as int, z.units as int),
{
    s.append("vec3(");
    let tx = x.to_text();
    s.append(tx.as_str());
    s.append(", ");
    let ty = y.to_text();
    s.append(ty.as_str());
    s.append(", ");
    let tz = z.to_text();
    s.append(tz.as_str());
    s.append(")");
    proof {
        assert(s@ =~= old(s)@ + spec_vec3_text(x.units as int, y.units as int, z.units as int));
    }
}

/// Appends the given point-space expression, or the canonical point `p`.
fn push_pos(s: &mut String, position: Option<&str>)
    ensures
        final(s)@ == old(s)@ + pos_view(position),
{
    match position {
        None => s.append("p"),
        Some(pos) => s.append(pos),
    }
}

/// The accumulator for one complete shader program: fixed boilerplate
/// buffers around a live scene expression.
pub struct SDFBuilder {
    prelude: String,
    declarations: String,
    definitions: String,
    scene: String,
    main: String,
}

impl SDFBuilder {
    /// The fixed preamble text.
    pub closed spec fn prelude_text(&self) -> Seq<char> {
        self.prelude@
    }

    /// The fixed declaration block.
    pub closed spec fn declarations_text(&self) -> Seq<char> {
        self.declarations@
    }

    /// The fixed primitive/operator function library.
    pub closed spec fn definitions_text(&self) -> Seq<char> {
        self.definitions@
    }

    /// The live scene expression.
    pub closed spec fn scene_text(&self) -> Seq<char> {
        self.scene@
    }

    /// The fixed entry-point text.
    pub closed spec fn main_text(&self) -> Seq<char> {
        self.main@
    }

    /// The text `build` returns: the fixed buffers concatenated around the
    /// scene expression wrapped in its function definition.
    pub open spec fn build_text(&self) -> Seq<char> {
        self.prelude_text() + self.declarations_text() + self.definitions_text()
            + "float scene(vec3 p) {\n    return "@ + self.scene_text() + ";}\n\n"@
            + self.main_text()
    }

    /// The four fixed buffers agree; only the scene may differ.
    pub open spec fn same_library(a: &SDFBuilder, b: &SDFBuilder) -> bool {
        &&& a.prelude_text() == b.prelude_text()
        &&& a.declarations_text() == b.declarations_text()
        &&& a.definitions_text() == b.definitions_text()
        &&& a.main_text() == b.main_text()
    }

    /// Seeds the accumulator with its fixed boilerplate: a preamble, a
    /// declaration block, the function library assembled from `definitions`
    /// fragments in order, and the entry-point text.
    pub fn new(prelude: &str, declarations: &str, definitions: &Vec<String>, main: &str) -> (r:
        SDFBuilder)
        ensures
            r.prelude_text() == prelude@,
            r.declarations_text() == declarations@,
            r.definitions_text() == concat_texts(definitions.deep_view()),
            r.scene_text() == "float scene(vec3 p) {"@,
            r.main_text() == main@,
    {
        let mut library = String::new();
        let ghost frags = definitions.deep_view();
        proof {
            assert(frags.skip(0) =~= frags);
            assert(library@ + concat_texts(frags.skip(0)) =~= concat_texts(frags));
        }
        let mut i: usize = 0;
        while i < definitions.len()
            invariant
                i <= definitions.len(),
                frags == definitions.deep_view(),
                frags.len() == definitions.len(),
                library@ + concat_texts(frags.skip(i as int)) == concat_texts(frags),
            decreases definitions.len() - i,
        {
            proof {
                assert(frags.skip(i as int)[0] == frags[i as int]);
                assert(frags.skip(i as int).drop_first() =~= frags.skip(i as int + 1));
                assert(definitions[i as int]@ == frags[i as int]);
            }
            library.append(definitions[i].as_str());
            i += 1;
            proof {
                assert(library@ + concat_texts(frags.skip(i as int)) =~= concat_texts(frags));
            }
        }
        proof {
            assert(frags.skip(definitions.len() as int) =~= Seq::<Seq<char>>::empty());
            assert(library@ =~= concat_texts(frags));
        }
        SDFBuilder {
            prelude: String::from_str(prelude),
            declarations: String::from_str(declarations),
            definitions: library,
            scene: String::from_str("float scene(vec3 p) {"),
            main: String::from_str(main),
        }
    }

    /// Emits a translation of the given point-space expression (or of the
    /// canonical sample point) by the given offset.
    pub fn translate(position: Option<&str>, translation: Vector3) -> (r: String)
        ensures
            r@ == spec_translate_text(
                pos_view(position),
                translation.x.units as int,
                translation.y.units as int,
                translation.z.units as int,
            ),
    {
        let mut s = String::from_str("translate(");
        push_pos(&mut s, position);
        s.append(", ");
        push_vec3(&mut s, translation.x, translation.y, translation.z);
        s.append(")");
        proof {
            assert(s@ =~= spec_translate_text(
                pos_view(position),
                translation.x.units as int,
                translation.y.units as int,
                translation.z.units as int,
            ));
        }
        s
    }

    /// Emits a rotation of the given point-space expression by the given
    /// Euler angles.
    pub fn rotate(position: Option<&str>, rotation: Vector3) -> (r: String)
        ensures
            r@ == spec_rotate_text(
                pos_view(position),
                rotation.x.units as int,
                rotation.y.units as int,
                rotation.z.units as int,
            ),
    {
        let mut s = String::from_str("rotate(");
        push_pos(&mut s, position);
        s.append(", ");
        push_vec3(&mut s, rotation.x, rotation.y, rotation.z);
        s.append(")");
        proof {
            assert(s@ =~= spec_rotate_text(
                pos_view(position),
                rotation.x.units as int,
                rotation.y.units as int,
                rotation.z.units as int,
            ));
        }
        s
    }

    /// Emits a rounded box: each half-extent shrunk by the fillet, the
    /// distance expanded by the fillet afterwards. The subtraction is not
    /// validated against the extents; an oversized fillet is accepted as-is.
    pub fn p_box(position: Option<&str>, size: Vector3, fillet: Fixed) -> (r: String)
        ensures
            r@ == spec_box_text(
                pos_view(position),
                size.x.units as int,
                size.y.units as int,
                size.z.units as int,
                fillet.units as int,
            ),
    {
        let mut s = String::from_str("sdf_box(");
        push_pos(&mut s, position);
        s.append(", ");
        push_vec3(&mut s, size.x.sub(fillet), size.y.sub(fillet), size.z.sub(fillet));
        s.append(") - ");
        let ft = fillet.to_text();
        s.append(ft.as_str());
        proof {
            assert(s@ =~= spec_box_text(
                pos_view(position),
                size.x.units as int,
                size.y.units as int,
                size.z.units as int,
                fillet.units as int,
            ));
        }
        s
    }

    /// Emits a rounded cylinder, with the same fillet convention as the box.
    pub fn p_cylinder(position: Option<&str>, height: Fixed, radius: Fixed, fillet: Fixed) -> (r:
        String)
        ensures
            r@ == spec_cylinder_text(
                pos_view(position),
                height.units as int,
                radius.units as int,
                fillet.units as int,
            ),
    {
        let mut s = String::from_str("sdf_cylinder(");
        push_pos(&mut s, position);
        s.append(", ");
        let th = height.sub(fillet).to_text();
        s.append(th.as_str());
        s.append(", ");
        let tr = radius.sub(fillet).to_text();
        s.append(tr.as_str());
        s.append(") - ");
        let tf = fillet.to_text();
        s.append(tf.as_str());
        proof {
            assert(s@ =~= spec_cylinder_text(
                pos_view(position),
                height.units as int,
                radius.units as int,
                fillet.units as int,
            ));
        }
        s
    }

    /// Emits a sphere of the given radius.
    pub fn p_sphere(position: Option<&str>, radius: Fixed) -> (r: String)
        ensures
            r@ == spec_sphere_text(pos_view(position), radius.units as int),
    {
        let mut s = String::from_str("sdf_sphere(");
        push_pos(&mut s, position);
        s.append(", ");
        let tr = radius.to_text();
        s.append(tr.as_str());
        s.append(")");
        proof {
            assert(s@ =~= spec_sphere_text(pos_view(position), radius.units as int));
        }
        s
    }

    /// Replaces the scene expression outright, seeding the tree.
    pub fn op_new(self, operand: &str) -> (r: SDFBuilder)
        ensures
            Self::same_library(&self, &r),
            r.scene_text() == operand@,
    {
        SDFBuilder {
            prelude: self.prelude,
            declarations: self.declarations,
            definitions: self.definitions,
            scene: String::from_str(operand),
            main: self.main,
        }
    }

    /// Wraps the scene and the operand in a hard union.
    pub fn op_union(self, operand: &str) -> (r: SDFBuilder)
        ensures
            Self::same_library(&self, &r),
            r.scene_text() == spec_union_text(self.scene_text(), operand@),
    {
        let mut scene = String::from_str("op_union(");
        scene.append(self.scene.as_str());
        scene.append(", ");
        scene.append(operand);
        scene.append(")");
        proof {
            assert(scene@ =~= spec_union_text(self.scene_text(), operand@));
        }
        SDFBuilder {
            prelude: self.prelude,
            declarations: self.declarations,
            definitions: self.definitions,
            scene,
            main: self.main,
        }
    }

    /// Wraps the scene and the operand in a hard difference.
    pub fn op_diff(self, operand: &str) -> (r: SDFBuilder)
        ensures
            Self::same_library(&self, &r),
            r.scene_text() == spec_diff_text(self.scene_text(), operand@),
    {
        let mut scene = String::from_str("op_diff(");
        scene.append(self.scene.as_str());
        scene.append(", ");
        scene.append(operand);
        scene.append(")");
        proof {
            assert(scene@ =~= spec_diff_text(self.scene_text(), operand@));
        }
        SDFBuilder {
            prelude: self.prelude,
            declarations: self.declarations,
            definitions: self.definitions,
            scene,
            main: self.main,
        }
    }

    /// Wraps the scene and the operand in a hard intersection.
    pub fn op_int(self, operand: &str) -> (r: SDFBuilder)
        ensures
            Self::same_library(&self, &r),
            r.scene_text() == spec_int_text(self.scene_text(), operand@),
    {
        let mut scene = String::from_str("op_int(");
        scene.append(self.scene.as_str());
        scene.append(", ");
        scene.append(operand);
        scene.append(")");
        proof {
            assert(scene@ =~= spec_int_text(self.scene_text(), operand@));
        }
        SDFBuilder {
            prelude: self.prelude,
            declarations: self.declarations,
            definitions: self.definitions,
            scene,
            main: self.main,
        }
    }

    /// Wraps the scene and the operand in a smooth union blended over `k`.
    pub fn op_union_smooth(self, operand: &str, smooth: Fixed) -> (r: SDFBuilder)
        ensures
            Self::same_library(&self, &r),
            r.scene_text() == spec_union_smooth_text(
                self.scene_text(),
                operand@,
                smooth.units as int,
            ),
    {
        let mut scene = String::from_str("op_union_smooth(");
        scene.append(self.scene.as_str());
        scene.append(", ");
        scene.append(operand);
        scene.append(", ");
        let tk = smooth.to_text();
        scene.append(tk.as_str());
        scene.append(")");
        proof {
            assert(scene@ =~= spec_union_smooth_text(
                self.scene_text(),
                operand@,
                smooth.units as int,
            ));
        }
        SDFBuilder {
            prelude: self.prelude,
            declarations: self.declarations,
            definitions: self.definitions,
            scene,
            main: self.main,
        }
    }

    /// Wraps the scene and the operand in a smooth difference blended over
    /// `k`.
    pub fn op_diff_smooth(self, operand: &str, smooth: Fixed) -> (r: SDFBuilder)
        ensures
            Self::same_library(&self, &r),
            r.scene_text() == spec_diff_smooth_text(
                self.scene_text(),
                operand@,
                smooth.units as int,
            ),
    {
        let mut scene = String::from_str("op_diff_smooth(");
        scene.append(self.scene.as_str());
        scene.append(", ");
        scene.append(operand);
        scene.append(", ");
        let tk = smooth.to_text();
        scene.append(tk.as_str());
        scene.append(")");
        proof {
            assert(scene@ =~= spec_diff_smooth_text(
                self.scene_text(),
                operand@,
                smooth.units as int,
            ));
        }
        SDFBuilder {
            prelude: self.prelude,
            declarations: self.declarations,
            definitions: self.definitions,
            scene,
            main: self.main,
        }
    }

    /// Wraps the scene and the operand in a smooth intersection blended over
    /// `k`.
    pub fn op_int_smooth(self, operand: &str, smooth: Fixed) -> (r: SDFBuilder)
        ensures
            Self::same_library(&self, &r),
            r.scene_text() == spec_int_smooth_text(
                self.scene_text(),
                operand@,
                smooth.units as int,
            ),
    {
        let mut scene = String::from_str("op_int_smooth(");
        scene.append(self.scene.as_str());
        scene.append(", ");
        scene.append(operand);
        scene.append(", ");
        let tk = smooth.to_text();
        scene.append(tk.as_str());
        scene.append(")");
        proof {
            assert(scene@ =~= spec_int_smooth_text(
                self.scene_text(),
                operand@,
                smooth.units as int,
            ));
        }
        SDFBuilder {
            prelude: self.prelude,
            declarations: self.declarations,
            definitions: self.definitions,
            scene,
            main: self.main,
        }
    }

    /// The complete shader source: the fixed buffers concatenated around the
    /// scene expression wrapped in its function definition. A pure read; the
    /// accumulator is left untouched, so repeated calls return byte-identical
    /// text.
    pub fn build(&self) -> (r: String)
        ensures
            r@ == self.build_text(),
    {
        let mut ans = self.prelude.clone();
        ans.append(self.declarations.as_str());
        ans.append(self.definitions.as_str());
        ans.append("float scene(vec3 p) {\n    return ");
        ans.append(self.scene.as_str());
        ans.append(";}\n\n");
        ans.append(self.main.as_str());
        proof {
            assert(ans@ =~= self.prelude_text() + self.declarations_text()
                + self.definitions_text() + "float scene(vec3 p) {\n    return "@
                + self.scene_text() + ";}\n\n"@ + self.main_text());
        }
        ans
    }
}

/// Building is deterministic: two accumulators reached by identical
/// operation sequences hold the same buffers, and equal buffers always
/// assemble into byte-identical program text.
pub proof fn lemma_build_deterministic(a: &SDFBuilder, b: &SDFBuilder)
    requires
        SDFBuilder::same_library(a, b),
        a.scene_text() == b.scene_text(),
    ensures
        a.build_text() == b.build_text(),
{
}

/// A union application wraps the previous scene and the new operand in
/// exactly one operator call: neither operand is dropped or double-wrapped.
pub proof fn lemma_union_wraps_once(a: Seq<char>, b: Seq<char>)
    ensures
        spec_union_text(a, b) == "op_union("@ + a + ", "@ + b + ")"@,
        spec_union_text(a, b).subrange(9, 9 + a.len() as int) == a,
        spec_union_text(a, b).len() == a.len() + b.len() + 12,
{
    reveal_strlit("op_union(");
    reveal_strlit(", ");
    reveal_strlit(")");
    assert(spec_union_text(a, b).subrange(9, 9 + a.len() as int) =~= a);
}

} // verus!
