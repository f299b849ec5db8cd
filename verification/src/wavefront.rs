//! A parsed Wavefront OBJ/MTL set, held as plain values, and the vertex deduplication
//! that turns an OBJ geometry into an indexed mesh.
//!
//! Coordinates and colors are the bit patterns of the `f32` values that the loader uses
//! (see `float_bits`); indices are those of the OBJ file, counted from zero.
use vstd::prelude::*;
use crate::float_bits::{F32Bits, F64Bits, f32_eq, f32_equal};
use crate::graphics::color::Rgb;

verus! {

/// A vertex as it is uploaded to the GPU.
#[derive(Debug, Clone, Copy)]
pub struct Vertex {
    pub pos: [F32Bits; 3],
    pub normal: [F32Bits; 3],
    pub uv: [F32Bits; 2],
}

/// `==` on two vertices: every coordinate compares equal as a float.
pub open spec fn vertex_eq(a: Vertex, b: Vertex) -> bool {
    &&& f32_eq(a.pos[0], b.pos[0])
    &&& f32_eq(a.pos[1], b.pos[1])
    &&& f32_eq(a.pos[2], b.pos[2])
    &&& f32_eq(a.normal[0], b.normal[0])
    &&& f32_eq(a.normal[1], b.normal[1])
    &&& f32_eq(a.normal[2], b.normal[2])
    &&& f32_eq(a.uv[0], b.uv[0])
    &&& f32_eq(a.uv[1], b.uv[1])
}

/// Computes `vertex_eq(*a, *b)`.
pub fn vertex_equal(a: &Vertex, b: &Vertex) -> (r: bool)
    ensures
        r == vertex_eq(*a, *b),
{
    f32_equal(a.pos[0], b.pos[0]) && f32_equal(a.pos[1], b.pos[1]) && f32_equal(
        a.pos[2],
        b.pos[2],
    ) && f32_equal(a.normal[0], b.normal[0]) && f32_equal(a.normal[1], b.normal[1])
        && f32_equal(a.normal[2], b.normal[2]) && f32_equal(a.uv[0], b.uv[0]) && f32_equal(
        a.uv[1],
        b.uv[1],
    )
}

/// A position, a texture coordinate and a normal index; the last two are optional.
pub type VTNIndex = (usize, Option<usize>, Option<usize>);

/// The primitive that a face line of the OBJ file describes.
#[derive(Debug, Clone, Copy)]
pub enum Primitive {
    Point(VTNIndex),
    Line(VTNIndex, VTNIndex),
    Triangle(VTNIndex, VTNIndex, VTNIndex),
}

/// A run of shapes that share one material.
#[derive(Debug, Clone)]
pub struct Geometry {
    pub material_name: Option<String>,
    pub shapes: Vec<Primitive>,
}

/// One object of an OBJ file.
#[derive(Debug, Clone)]
pub struct Object {
    pub name: String,
    /// Positions (x, y, z).
    pub vertices: Vec<[F32Bits; 3]>,
    /// Texture coordinates (u, v).
    pub tex_vertices: Vec<[F32Bits; 2]>,
    /// Normals (x, y, z).
    pub normals: Vec<[F32Bits; 3]>,
    pub geometry: Vec<Geometry>,
}

/// The contents of an OBJ file: its objects and the MTL file that holds their materials.
#[derive(Debug, Clone)]
pub struct ObjSet {
    pub material_library: Option<String>,
    pub objects: Vec<Object>,
}

/// One material of an MTL file.
#[derive(Debug, Clone)]
pub struct Material {
    pub name: String,
    /// The specular coefficient as the file gives it (double precision).
    pub specular_coefficient_f64: F64Bits,
    /// The specular coefficient rounded to single precision.
    pub specular_coefficient: F32Bits,
    pub color_ambient: Rgb<F32Bits>,
    pub color_diffuse: Rgb<F32Bits>,
    pub color_specular: Rgb<F32Bits>,
    pub color_emissive: Option<Rgb<F32Bits>>,
    pub alpha: F32Bits,
    /// The diffuse texture's file name, relative to the material file.
    pub diffuse_map: Option<String>,
}

/// The corners that a primitive lists, in order.
pub open spec fn primitive_corners(p: Primitive) -> Seq<VTNIndex> {
    match p {
        Primitive::Point(a) => seq![a],
        Primitive::Line(a, b) => seq![a, b],
        Primitive::Triangle(a, b, c) => seq![a, b, c],
    }
}

/// The corners of all the shapes, in order.
pub open spec fn shapes_corners(shapes: Seq<Primitive>) -> Seq<VTNIndex>
    decreases shapes.len(),
{
    if shapes.len() == 0 {
        seq![]
    } else {
        shapes_corners(shapes.drop_last()) + primitive_corners(shapes.last())
    }
}

/// The vertex that a corner names in `obj`, when it has both a texture coordinate and a
/// normal.
pub open spec fn corner_vertex(obj: Object, c: VTNIndex) -> Option<Vertex> {
    match c {
        (p, Some(t), Some(n)) => Some(
            Vertex { pos: obj.vertices@[p as int], normal: obj.normals@[n as int], uv: obj.tex_vertices@[t as int] },
        ),
        _ => None,
    }
}

/// The corners' indices lie inside the object's lists wherever a vertex is built from them.
pub open spec fn corner_in_range(obj: Object, c: VTNIndex) -> bool {
    match c {
        (p, Some(t), Some(n)) => p < obj.vertices@.len() && t < obj.tex_vertices@.len() && n
            < obj.normals@.len(),
        _ => true,
    }
}

/// Every corner of every shape of the object is in range.
pub open spec fn object_in_range(obj: Object) -> bool {
    forall|g: int, s: int|
        0 <= g < obj.geometry@.len() && 0 <= s < obj.geometry@[g].shapes@.len() ==> {
            let p = #[trigger] obj.geometry@[g].shapes@[s];
            forall|k: int|
                0 <= k < primitive_corners(p).len() ==> corner_in_range(
                    obj,
                    #[trigger] primitive_corners(p)[k],
                )
        }
}

/// Computes `corner_in_range(*obj, c)`.
fn corner_indices_in_range(obj: &Object, c: VTNIndex) -> (b: bool)
    ensures
        b == corner_in_range(*obj, c),
{
    match c {
        (p, Some(t), Some(n)) => p < obj.vertices.len() && t < obj.tex_vertices.len() && n < obj.normals.len(),
        _ => true,
    }
}

/// Computes `object_in_range(*obj)`: whether every corner that yields a vertex names
/// existing positions, texture coordinates and normals.
pub fn object_indices_in_range(obj: &Object) -> (b: bool)
    ensures
        b == object_in_range(*obj),
{
    let mut g: usize = 0;
    while g < obj.geometry.len()
        invariant
            g <= obj.geometry@.len(),
            forall|gi: int, si: int|
                0 <= gi < g && 0 <= si < obj.geometry@[gi].shapes@.len() ==> {
                    let p = #[trigger] obj.geometry@[gi].shapes@[si];
                    forall|k: int| 0 <= k < primitive_corners(p).len() ==> corner_in_range(
                        *obj,
                        #[trigger] primitive_corners(p)[k],
                    )
                },
        decreases obj.geometry@.len() - g,
    {
        let shapes = &obj.geometry[g].shapes;
        let mut s: usize = 0;
        while s < shapes.len()
            invariant
                g < obj.geometry@.len(),
                *shapes == obj.geometry@[g as int].shapes,
                s <= shapes@.len(),
                forall|gi: int, si: int|
                    0 <= gi < g && 0 <= si < obj.geometry@[gi].shapes@.len() ==> {
                        let p = #[trigger] obj.geometry@[gi].shapes@[si];
                        forall|k: int| 0 <= k < primitive_corners(p).len() ==> corner_in_range(
                            *obj,
                            #[trigger] primitive_corners(p)[k],
                        )
                    },
                forall|si: int|
                    0 <= si < s ==> {
                        let p = #[trigger] obj.geometry@[g as int].shapes@[si];
                        forall|k: int| 0 <= k < primitive_corners(p).len() ==> corner_in_range(
                            *obj,
                            #[trigger] primitive_corners(p)[k],
                        )
                    },
            decreases shapes@.len() - s,
        {
            let shape = shapes[s];
            let ok = match shape {
                Primitive::Point(a) => corner_indices_in_range(obj, a),
                Primitive::Line(a, b) => corner_indices_in_range(obj, a) && corner_indices_in_range(obj, b),
                Primitive::Triangle(a, b, c) => corner_indices_in_range(obj, a) && corner_indices_in_range(obj, b)
                    && corner_indices_in_range(obj, c),
            };
            proof {
                let cs = primitive_corners(shape);
                assert(obj.geometry@[g as int].shapes@[s as int] == shape);
                if ok {
                    assert forall|k: int| 0 <= k < cs.len() implies corner_in_range(*obj, #[trigger] cs[k]) by {}
                } else {
                    assert(exists|k: int| 0 <= k < cs.len() && !corner_in_range(*obj, #[trigger] cs[k])) by {
                        match shape {
                            Primitive::Point(a) => assert(!corner_in_range(*obj, cs[0])),
                            Primitive::Line(a, b) => {
                                if !corner_in_range(*obj, a) {
                                    assert(!corner_in_range(*obj, cs[0]));
                                } else {
                                    assert(!corner_in_range(*obj, cs[1]));
                                }
                            },
                            Primitive::Triangle(a, b, c) => {
                                if !corner_in_range(*obj, a) {
                                    assert(!corner_in_range(*obj, cs[0]));
                                } else if !corner_in_range(*obj, b) {
                                    assert(!corner_in_range(*obj, cs[1]));
                                } else {
                                    assert(!corner_in_range(*obj, cs[2]));
                                }
                            },
                        }
                    }
                }
            }
            if !ok {
                return false;
            }
            s = s + 1;
        }
        g = g + 1;
    }
    true
}

/// The vertices, in order, that the corners yield; corners without a texture coordinate
/// or a normal yield none.
pub open spec fn corners_vertices(obj: Object, cs: Seq<VTNIndex>) -> Seq<Vertex>
    decreases cs.len(),
{
    if cs.len() == 0 {
        seq![]
    } else {
        let prev = corners_vertices(obj, cs.drop_last());
        match corner_vertex(obj, cs.last()) {
            Some(v) => prev.push(v),
            None => prev,
        }
    }
}

/// The position of the first vertex of `vs`, from `start` on, that equals `v`; `-1` if
/// there is none.
pub open spec fn first_equal_from(vs: Seq<Vertex>, v: Vertex, start: int) -> int
    decreases vs.len() - start,
{
    if start < 0 || start >= vs.len() {
        -1
    } else if vertex_eq(vs[start], v) {
        start
    } else {
        first_equal_from(vs, v, start + 1)
    }
}

/// One step of deduplication: `v` is given the position of the first stored vertex equal to
/// it, or is appended and given the new position.
pub open spec fn dedup_step(state: (Seq<Vertex>, Seq<int>), v: Vertex) -> (Seq<Vertex>, Seq<int>) {
    let (vs, idx) = state;
    let i = first_equal_from(vs, v, 0);
    if i >= 0 {
        (vs, idx.push(i))
    } else {
        (vs.push(v), idx.push(vs.len() as int))
    }
}

/// The distinct vertices and the position of each input vertex among them.
pub open spec fn dedup(inputs: Seq<Vertex>) -> (Seq<Vertex>, Seq<int>)
    decreases inputs.len(),
{
    if inputs.len() == 0 {
        (seq![], seq![])
    } else {
        dedup_step(dedup(inputs.drop_last()), inputs.last())
    }
}

/// The stored vertices and the index list that a geometry's shapes produce.
pub open spec fn geometry_mesh(obj: Object, shapes: Seq<Primitive>) -> (Seq<Vertex>, Seq<int>) {
    dedup(corners_vertices(obj, shapes_corners(shapes)))
}

/// `first_equal_from` answers the first position, from `start` on, that holds a vertex equal
/// to `v`, or `-1` when there is none.
pub proof fn lemma_first_equal_from(vs: Seq<Vertex>, v: Vertex, start: int)
    requires
        0 <= start,
    ensures
        ({
            let r = first_equal_from(vs, v, start);
            &&& r == -1 || (start <= r < vs.len() && vertex_eq(vs[r], v))
            &&& forall|j: int| start <= j < vs.len() && (r == -1 || j < r) ==> !vertex_eq(#[trigger] vs[j], v)
        }),
    decreases vs.len() - start,
{
    if start < vs.len() && !vertex_eq(vs[start], v) {
        lemma_first_equal_from(vs, v, start + 1);
    }
}

/// Deduplication keeps one vertex for each run of equal inputs and points every input at
/// the vertex that stands for it:
/// - there is one position per input, and every position names a stored vertex;
/// - the stored vertex is the input itself or a vertex equal to it, and it is the first
///   stored vertex equal to the input whenever the input equals any;
/// - no two stored vertices are equal;
/// - every stored vertex is one of the inputs.
pub proof fn lemma_dedup(inputs: Seq<Vertex>)
    ensures
        ({
            let (vs, idx) = dedup(inputs);
            &&& idx.len() == inputs.len()
            &&& vs.len() <= inputs.len()
            &&& forall|k: int| 0 <= k < idx.len() ==> 0 <= #[trigger] idx[k] < vs.len()
            &&& forall|k: int|
                0 <= k < idx.len() ==> vs[#[trigger] idx[k]] == inputs[k] || vertex_eq(vs[idx[k]], inputs[k])
            &&& forall|k: int, j: int|
                0 <= k < idx.len() && 0 <= j < idx[k] ==> !vertex_eq(#[trigger] vs[j], #[trigger] inputs[k])
            &&& forall|i: int, j: int| 0 <= i < j < vs.len() ==> !vertex_eq(#[trigger] vs[i], #[trigger] vs[j])
            &&& forall|i: int| 0 <= i < vs.len() ==> exists|k: int| 0 <= k < inputs.len() && #[trigger] inputs[k] == #[trigger] vs[i]
        }),
    decreases inputs.len(),
{
    if inputs.len() > 0 {
        let prev_inputs = inputs.drop_last();
        lemma_dedup(prev_inputs);
        let (vs, idx) = dedup(prev_inputs);
        let v = inputs.last();
        lemma_first_equal_from(vs, v, 0);
        let (nvs, nidx) = dedup(inputs);
        assert(forall|k: int| 0 <= k < prev_inputs.len() ==> inputs[k] == prev_inputs[k]);
        assert forall|i: int| 0 <= i < nvs.len() implies exists|k: int|
            0 <= k < inputs.len() && #[trigger] inputs[k] == #[trigger] nvs[i] by {
            if i < vs.len() {
                let k = choose|k: int| 0 <= k < prev_inputs.len() && #[trigger] prev_inputs[k] == vs[i];
                assert(inputs[k] == nvs[i]);
            } else {
                assert(inputs[inputs.len() - 1] == nvs[i]);
            }
        }
    }
}

/// The corners of `cs` that yield a vertex (those with both a texture coordinate and a
/// normal), in order.
pub open spec fn full_corners(cs: Seq<VTNIndex>) -> Seq<VTNIndex>
    decreases cs.len(),
{
    if cs.len() == 0 {
        seq![]
    } else {
        let prev = full_corners(cs.drop_last());
        match cs.last() {
            (_, Some(_), Some(_)) => prev.push(cs.last()),
            _ => prev,
        }
    }
}

/// The `k`-th vertex that the corners yield is built from the `k`-th corner that has a
/// texture coordinate and a normal: its position, normal and texture coordinate are the
/// ones that corner names.
pub proof fn lemma_full_corners(obj: Object, cs: Seq<VTNIndex>)
    ensures
        corners_vertices(obj, cs).len() == full_corners(cs).len(),
        forall|k: int|
            0 <= k < full_corners(cs).len() ==> {
                let c = #[trigger] full_corners(cs)[k];
                &&& c.1 is Some && c.2 is Some
                &&& corners_vertices(obj, cs)[k] == Vertex {
                    pos: obj.vertices@[c.0 as int],
                    normal: obj.normals@[c.2->0 as int],
                    uv: obj.tex_vertices@[c.1->0 as int],
                }
            },
    decreases cs.len(),
{
    if cs.len() > 0 {
        lemma_full_corners(obj, cs.drop_last());
    }
}

/// Two coordinates are the same float: the same pattern, or patterns that compare equal as
/// floats (`0.0` and `-0.0`).
pub open spec fn same_float(a: F32Bits, b: F32Bits) -> bool {
    a == b || f32_eq(a, b)
}

/// The stored vertex `v` stands for corner `c` of `obj`: the corner has a texture
/// coordinate and a normal, and each coordinate of `v`'s position, normal and texture
/// coordinate is the same float as that of the position, normal and texture coordinate that
/// the corner names.
pub open spec fn vertex_of_corner(v: Vertex, obj: Object, c: VTNIndex) -> bool {
    match c {
        (p, Some(t), Some(n)) => {
            let pos = obj.vertices@[p as int];
            let normal = obj.normals@[n as int];
            let uv = obj.tex_vertices@[t as int];
            &&& same_float(v.pos[0], pos[0]) && same_float(v.pos[1], pos[1]) && same_float(v.pos[2], pos[2])
            &&& same_float(v.normal[0], normal[0]) && same_float(v.normal[1], normal[1]) && same_float(
                v.normal[2],
                normal[2],
            )
            &&& same_float(v.uv[0], uv[0]) && same_float(v.uv[1], uv[1])
        },
        _ => false,
    }
}

/// An indexed mesh keeps every corner: there is one index per corner that has a texture
/// coordinate and a normal, and the stored vertex it names has the position, normal and
/// texture coordinate of that corner, float by float. So two corners whose normals (or
/// positions, or texture coordinates) differ as floats never share a stored vertex.
pub proof fn lemma_mesh_keeps_corners(obj: Object, shapes: Seq<Primitive>)
    ensures
        ({
            let mesh = geometry_mesh(obj, shapes);
            let fc = full_corners(shapes_corners(shapes));
            &&& mesh.1.len() == fc.len()
            &&& forall|k: int|
                0 <= k < fc.len() ==> 0 <= mesh.1[k] < mesh.0.len() && vertex_of_corner(
                    mesh.0[mesh.1[k]],
                    obj,
                    #[trigger] fc[k],
                )
        }),
{
    let cs = shapes_corners(shapes);
    let inputs = corners_vertices(obj, cs);
    lemma_full_corners(obj, cs);
    lemma_dedup(inputs);
    let (vs, idx) = dedup(inputs);
    let fc = full_corners(cs);
    assert forall|k: int| 0 <= k < fc.len() implies 0 <= idx[k] < vs.len() && vertex_of_corner(
        vs[idx[k]],
        obj,
        #[trigger] fc[k],
    ) by {
        assert(0 <= idx[k] < vs.len());
        assert(vs[idx[k]] == inputs[k] || vertex_eq(vs[idx[k]], inputs[k]));
    }
}

/// The position of the first vertex of `vs` equal to `v`, if any.
pub fn find_equal_vertex(vs: &Vec<Vertex>, v: &Vertex) -> (r: Option<usize>)
    ensures
        match r {
            Some(i) => first_equal_from(vs@, *v, 0) == i as int,
            None => first_equal_from(vs@, *v, 0) == -1,
        },
{
    let mut i: usize = 0;
    while i < vs.len()
        invariant
            0 <= i <= vs@.len(),
            first_equal_from(vs@, *v, 0) == first_equal_from(vs@, *v, i as int),
        decreases vs@.len() - i,
    {
        if vertex_equal(&vs[i], v) {
            return Some(i);
        }
        i = i + 1;
    }
    None
}

/// Builds the deduplicated vertex list of a geometry, and the position of each of its
/// corners' vertices in that list. Corners without a texture coordinate or a normal are
/// skipped.
pub fn build_geometry_mesh(obj: &Object, shapes: &Vec<Primitive>) -> (r: (Vec<Vertex>, Vec<usize>))
    requires
        forall|s: int|
            0 <= s < shapes@.len() ==> forall|k: int|
                0 <= k < primitive_corners(#[trigger] shapes@[s]).len() ==> corner_in_range(
                    *obj,
                    #[trigger] primitive_corners(shapes@[s])[k],
                ),
    ensures
        r.0@ == geometry_mesh(*obj, shapes@).0,
        r.1@.map_values(|i: usize| i as int) == geometry_mesh(*obj, shapes@).1,
{
    let mut vertices: Vec<Vertex> = Vec::new();
    let mut indices: Vec<usize> = Vec::new();
    let mut k: usize = 0;
    proof {
        assert(shapes@.take(0) =~= Seq::<Primitive>::empty());
    }
    while k < shapes.len()
        invariant
            0 <= k <= shapes@.len(),
            forall|s: int|
                0 <= s < shapes@.len() ==> forall|j: int|
                    0 <= j < primitive_corners(#[trigger] shapes@[s]).len() ==> corner_in_range(
                        *obj,
                        #[trigger] primitive_corners(shapes@[s])[j],
                    ),
            vertices@ == geometry_mesh(*obj, shapes@.take(k as int)).0,
            indices@.map_values(|i: usize| i as int) == geometry_mesh(*obj, shapes@.take(k as int)).1,
        decreases shapes@.len() - k,
    {
        let ghost before = shapes_corners(shapes@.take(k as int));
        let shape = shapes[k];
        proof {
            assert(shapes@.take(k + 1).drop_last() =~= shapes@.take(k as int));
            assert(shapes@.take(k + 1).last() == shape);
            assert(shapes_corners(shapes@.take(k + 1)) == before + primitive_corners(shape));
        }
        match shape {
            Primitive::Point(a) => {
                proof {
                    assert(primitive_corners(shape)[0] == a);
                }
                insert_corner(obj, &mut vertices, &mut indices, a, Ghost(before));
                proof {
                    assert(before.push(a) =~= before + primitive_corners(shape));
                }
            },
            Primitive::Line(a, b) => {
                proof {
                    assert(primitive_corners(shape)[0] == a);
                    assert(primitive_corners(shape)[1] == b);
                }
                insert_corner(obj, &mut vertices, &mut indices, a, Ghost(before));
                insert_corner(obj, &mut vertices, &mut indices, b, Ghost(before.push(a)));
                proof {
                    assert(before.push(a).push(b) =~= before + primitive_corners(shape));
                }
            },
            Primitive::Triangle(a, b, c) => {
                proof {
                    assert(primitive_corners(shape)[0] == a);
                    assert(primitive_corners(shape)[1] == b);
                    assert(primitive_corners(shape)[2] == c);
                }
                insert_corner(obj, &mut vertices, &mut indices, a, Ghost(before));
                insert_corner(obj, &mut vertices, &mut indices, b, Ghost(before.push(a)));
                insert_corner(
                    obj,
                    &mut vertices,
                    &mut indices,
                    c,
                    Ghost(before.push(a).push(b)),
                );
                proof {
                    assert(before.push(a).push(b).push(c) =~= before + primitive_corners(shape));
                }
            },
        }
        k = k + 1;
    }
    proof {
        assert(shapes@.take(shapes@.len() as int) =~= shapes@);
    }
    (vertices, indices)
}

/// The integer type that a mesh part's index list holds.
pub trait MeshIndex: Sized + Copy {
    /// The index that vertex position `p` becomes: `p` cast to the type.
    spec fn of_position(p: int) -> Self;

    /// Casts a vertex position to an index.
    fn from_position(p: usize) -> (r: Self)
        ensures
            r == Self::of_position(p as int),
    ;
}

impl MeshIndex for u32 {
    open spec fn of_position(p: int) -> u32 {
        p as u32
    }

    fn from_position(p: usize) -> (r: u32) {
        p as u32
    }
}

impl MeshIndex for u16 {
    open spec fn of_position(p: int) -> u16 {
        p as u16
    }

    fn from_position(p: usize) -> (r: u16) {
        p as u16
    }
}

/// The index list of a mesh part: each vertex position cast to the index type.
pub fn mesh_indices<I: MeshIndex>(positions: &Vec<usize>) -> (r: Vec<I>)
    ensures
        r@ == positions@.map_values(|p: usize| I::of_position(p as int)),
{
    let mut indices: Vec<I> = Vec::new();
    let mut i: usize = 0;
    while i < positions.len()
        invariant
            0 <= i <= positions@.len(),
            indices@ == positions@.take(i as int).map_values(|p: usize| I::of_position(p as int)),
        decreases positions@.len() - i,
    {
        proof {
            assert(positions@.take(i + 1) =~= positions@.take(i as int).push(positions@[i as int]));
        }
        indices.push(I::from_position(positions[i]));
        proof {
            assert(indices@ =~= positions@.take(i + 1).map_values(|p: usize| I::of_position(p as int)));
        }
        i = i + 1;
    }
    proof {
        assert(positions@.take(positions@.len() as int) =~= positions@);
    }
    indices
}

/// Adds the vertex of corner `c` (if it has one) to the deduplicated lists that the corners
/// `before` produced.
fn insert_corner(
    obj: &Object,
    vertices: &mut Vec<Vertex>,
    indices: &mut Vec<usize>,
    c: VTNIndex,
    Ghost(before): Ghost<Seq<VTNIndex>>,
)
    requires
        corner_in_range(*obj, c),
        old(vertices)@ == dedup(corners_vertices(*obj, before)).0,
        old(indices)@.map_values(|i: usize| i as int) == dedup(corners_vertices(*obj, before)).1,
    ensures
        final(vertices)@ == dedup(corners_vertices(*obj, before.push(c))).0,
        final(indices)@.map_values(|i: usize| i as int) == dedup(
            corners_vertices(*obj, before.push(c)),
        ).1,
{
    proof {
        assert(before.push(c).drop_last() =~= before);
    }
    if let (p, Some(t), Some(n)) = c {
        let v = Vertex { pos: obj.vertices[p], normal: obj.normals[n], uv: obj.tex_vertices[t] };
        let ghost prev = corners_vertices(*obj, before);
        proof {
            assert(corner_vertex(*obj, c) == Some(v));
            assert(corners_vertices(*obj, before.push(c)) == prev.push(v));
            assert(prev.push(v).drop_last() =~= prev);
        }
        let ghost old_idx = indices@;
        match find_equal_vertex(vertices, &v) {
            Some(i) => {
                indices.push(i);
            },
            None => {
                indices.push(vertices.len());
                vertices.push(v);
            },
        }
        proof {
            assert(indices@.map_values(|i: usize| i as int) =~= old_idx.map_values(
                |i: usize| i as int,
            ).push(indices@.last() as int));
        }
    }
}

} // verus!
