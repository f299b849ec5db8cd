//! Reading OBJ and MTL text with the `wavefront_obj` parser, and rounding what it reads to
//! the single-precision values that the engine uses.
use vstd::prelude::*;
use vstd::string::StringSliceAdditionalSpecFns;
use crate::float_bits::{F64Bits, f32_from_f64, f32_of_f64};
use crate::graphics::color::Rgb;
use crate::wavefront::{Geometry, Material, ObjSet, Object, Primitive};
use wavefront_obj::{mtl, obj};

verus! {

/// A geometry as plain values.
pub struct GeometryView {
    pub material_name: Option<Seq<char>>,
    pub shapes: Seq<Primitive>,
}

/// The view of a geometry.
pub open spec fn geometry_view(g: Geometry) -> GeometryView {
    GeometryView {
        material_name: match g.material_name {
            Some(n) => Some(n@),
            None => None,
        },
        shapes: g.shapes@,
    }
}

/// A parsed object as plain values.
pub struct ParsedObjectView {
    pub name: Seq<char>,
    pub vertices: Seq<[F64Bits; 3]>,
    pub tex_vertices: Seq<[F64Bits; 2]>,
    pub normals: Seq<[F64Bits; 3]>,
    pub geometry: Seq<GeometryView>,
}

/// A parsed OBJ file as plain values.
pub struct ParsedObjSetView {
    pub material_library: Option<Seq<char>>,
    pub objects: Seq<ParsedObjectView>,
}

/// A material as the parser reads it: its numbers are double-precision patterns.
pub struct ParsedMaterial {
    pub name: String,
    pub specular_coefficient: F64Bits,
    pub color_ambient: Rgb<F64Bits>,
    pub color_diffuse: Rgb<F64Bits>,
    pub color_specular: Rgb<F64Bits>,
    pub color_emissive: Option<Rgb<F64Bits>>,
    pub alpha: F64Bits,
    pub diffuse_map: Option<String>,
}

/// A parsed material as plain values.
pub struct ParsedMaterialView {
    pub name: Seq<char>,
    pub specular_coefficient: F64Bits,
    pub color_ambient: Rgb<F64Bits>,
    pub color_diffuse: Rgb<F64Bits>,
    pub color_specular: Rgb<F64Bits>,
    pub color_emissive: Option<Rgb<F64Bits>>,
    pub alpha: F64Bits,
    pub diffuse_map: Option<Seq<char>>,
}

impl View for ParsedMaterial {
    type V = ParsedMaterialView;

    open spec fn view(&self) -> ParsedMaterialView {
        ParsedMaterialView {
            name: self.name@,
            specular_coefficient: self.specular_coefficient,
            color_ambient: self.color_ambient,
            color_diffuse: self.color_diffuse,
            color_specular: self.color_specular,
            color_emissive: self.color_emissive,
            alpha: self.alpha,
            diffuse_map: match self.diffuse_map {
                Some(m) => Some(m@),
                None => None,
            },
        }
    }
}

/// What `wavefront_obj::obj::parse` reads from an OBJ text: `None` where it reports a
/// parse error.
pub uninterp spec fn parsed_obj(text: Seq<char>) -> Option<ParsedObjSetView>;

/// What `wavefront_obj::mtl::parse` reads from an MTL text, its materials in order: `None`
/// where it reports a parse error.
pub uninterp spec fn parsed_mtl(text: Seq<char>) -> Option<Seq<ParsedMaterialView>>;

/// The parts of an OBJ file that say how it is built: the material library, and each
/// object's name and geometries.
pub struct ObjStructure {
    pub material_library: Option<String>,
    pub objects: Vec<(String, Vec<Geometry>)>,
}

/// The numbers of one object of an OBJ file, as double-precision patterns: its positions,
/// texture coordinates and normals.
pub type ObjectNumbers = (Vec<[F64Bits; 3]>, Vec<[F64Bits; 2]>, Vec<[F64Bits; 3]>);

/// `s` holds the material library, object names and geometries of `p`.
pub open spec fn structure_matches(p: ParsedObjSetView, s: ObjStructure) -> bool {
    &&& match s.material_library {
        Some(l) => p.material_library == Some(l@),
        None => p.material_library is None,
    }
    &&& s.objects@.len() == p.objects.len()
    &&& forall|i: int|
        0 <= i < p.objects.len() ==> {
            &&& (#[trigger] s.objects@[i]).0@ == p.objects[i].name
            &&& s.objects@[i].1@.map_values(|g: Geometry| geometry_view(g)) == p.objects[i].geometry
        }
}

/// `ns` holds the numbers of the objects of `p`, in order.
pub open spec fn numbers_match(p: ParsedObjSetView, ns: Seq<ObjectNumbers>) -> bool {
    &&& ns.len() == p.objects.len()
    &&& forall|i: int|
        0 <= i < p.objects.len() ==> {
            &&& (#[trigger] ns[i]).0@ == p.objects[i].vertices
            &&& ns[i].1@ == p.objects[i].tex_vertices
            &&& ns[i].2@ == p.objects[i].normals
        }
}

/// The number of ASCII digits in `b` from position `i` on, up to the first other byte.
pub open spec fn digits_from(b: Seq<u8>, i: int) -> nat
    decreases b.len() - i,
{
    if 0 <= i < b.len() && 0x30 <= b[i] <= 0x39 {
        1 + digits_from(b, i + 1)
    } else {
        0
    }
}

/// Position `j` ends a face index: the text ends there, or it holds white space, a `/` or
/// the `#` of a comment.
pub open spec fn ends_index(b: Seq<u8>, j: int) -> bool {
    j >= b.len() || b[j] == 0x20 || b[j] == 0x09 || b[j] == 0x0d || b[j] == 0x0a || b[j] == 0x2f || b[j]
        == 0x23
}

/// At position `i` stands a `-` followed by nine or more digits and the end of an index:
/// a negative index too large for the parser's arithmetic.
pub open spec fn long_negative_index_at(b: Seq<u8>, i: int) -> bool {
    &&& b[i] == 0x2d
    &&& digits_from(b, i + 1) >= 9
    &&& ends_index(b, i + 1 + digits_from(b, i + 1))
}

/// The OBJ text (its UTF-8 bytes) is one that the parser reads without overflowing: every
/// negative face index has at most eight digits, and the text is short enough that the
/// parser's vertex counts stay far from the largest `isize`.
pub open spec fn obj_text_safe(b: Seq<u8>) -> bool {
    &&& b.len() + 100_000_000 <= isize::MAX
    &&& forall|i: int| 0 <= i < b.len() ==> !#[trigger] long_negative_index_at(b, i)
}

/// Computes `obj_text_safe` of the text's bytes.
pub fn obj_text_is_safe(text: &str) -> (r: bool)
    ensures
        r == obj_text_safe(text.spec_bytes()),
{
    let bytes = text.as_bytes();
    let n = bytes.len();
    if n > (isize::MAX as usize) - 100_000_000 {
        return false;
    }
    let ghost b = bytes@;
    let mut i: usize = 0;
    while i < n
        invariant
            i <= n,
            n == b.len(),
            b == bytes@,
            b == text.spec_bytes(),
            forall|j: int| 0 <= j < i ==> !#[trigger] long_negative_index_at(b, j),
        decreases n - i,
    {
        if bytes[i] == 0x2d {
            let mut k: usize = i + 1;
            while k < n && 0x30 <= bytes[k] && bytes[k] <= 0x39
                invariant
                    i + 1 <= k <= n,
                    n == b.len(),
                    b == bytes@,
                    digits_from(b, i + 1) == (k - (i + 1)) + digits_from(b, k as int),
                decreases n - k,
            {
                k = k + 1;
            }
            assert(digits_from(b, k as int) == 0);
            if k - (i + 1) >= 9 && (k == n || bytes[k] == 0x20 || bytes[k] == 0x09 || bytes[k] == 0x0d
                || bytes[k] == 0x0a || bytes[k] == 0x2f || bytes[k] == 0x23) {
                assert(long_negative_index_at(b, i as int));
                return false;
            }
        }
        i = i + 1;
    }
    true
}

/// Calls `wavefront_obj::obj::parse` on the text and hands on how the file is built: the
/// material library, and each object's name and geometries (each face as its primitive).
/// The parse depends on the text alone; `parsed_obj` names it. The parser turns a negative
/// face index `x` into `max - x`, where `max` is one more than the vertices read so far; on
/// a text that `obj_text_safe` admits, `|x| < 10^8` and `max` is at most one more than the
/// text's length, so that sum stays below `isize::MAX` and the parser returns.
#[verifier::external_body]
fn parse_obj_structure(text: &str) -> (r: Option<ObjStructure>)
    requires
        obj_text_safe(text.spec_bytes()),
    ensures
        match r {
            Some(s) => parsed_obj(text@) matches Some(p) && structure_matches(p, s),
            None => parsed_obj(text@) is None,
        },
{
    let shape = |s: &obj::Shape| match s.primitive {
        obj::Primitive::Point(a) => Primitive::Point(a),
        obj::Primitive::Line(a, b) => Primitive::Line(a, b),
        obj::Primitive::Triangle(a, b, c) => Primitive::Triangle(a, b, c),
    };
    let geometry = |g: obj::Geometry| Geometry { material_name: g.material_name, shapes: g.shapes.iter().map(shape).collect() };
    let set = obj::parse(text).ok()?;
    let objects = set.objects.into_iter().map(|o| (o.name, o.geometry.into_iter().map(geometry).collect()));
    Some(ObjStructure { material_library: set.material_library, objects: objects.collect() })
}

/// Calls `wavefront_obj::obj::parse` on the text and hands on each object's numbers, each
/// as the pattern of the `f64` that the parser read. The parse depends on the text alone;
/// `parsed_obj` names it. On a text that `obj_text_safe` admits the parser returns (see
/// `parse_obj_structure`).
#[verifier::external_body]
fn parse_obj_numbers(text: &str) -> (r: Option<Vec<ObjectNumbers>>)
    requires
        obj_text_safe(text.spec_bytes()),
    ensures
        match r {
            Some(ns) => parsed_obj(text@) matches Some(p) && numbers_match(p, ns@),
            None => parsed_obj(text@) is None,
        },
{
    let vs = |xs: &Vec<obj::Vertex>| xs.iter().map(|v| [v.x.to_bits(), v.y.to_bits(), v.z.to_bits()]).collect();
    let tex = |o: &obj::Object| o.tex_vertices.iter().map(|t| [t.u.to_bits(), t.v.to_bits()]).collect();
    let objects = obj::parse(text).ok()?.objects;
    Some(objects.iter().map(|o| (vs(&o.vertices), tex(o), vs(&o.normals))).collect())
}

/// Calls `wavefront_obj::mtl::parse` on the text. Its result depends on the text alone;
/// the contract names it. Each number is handed on as the pattern of the `f64` that the
/// parser read.
#[verifier::external_body]
fn parse_mtl_text(text: &str) -> (r: Option<Vec<ParsedMaterial>>)
    ensures
        match r {
            Some(ms) => parsed_mtl(text@) == Some(ms@.map_values(|m: ParsedMaterial| m@)),
            None => parsed_mtl(text@) is None,
        },
{
    let rgb = |c: &mtl::Color| Rgb::new(c.r.to_bits(), c.g.to_bits(), c.b.to_bits());
    let materials = mtl::parse(text).ok()?.materials.into_iter().map(|m| ParsedMaterial {
        specular_coefficient: m.specular_coefficient.to_bits(),
        color_ambient: rgb(&m.color_ambient),
        color_diffuse: rgb(&m.color_diffuse),
        color_specular: rgb(&m.color_specular),
        color_emissive: m.color_emissive.as_ref().map(rgb),
        alpha: m.alpha.to_bits(),
        diffuse_map: m.diffuse_map,
        name: m.name,
    });
    Some(materials.collect())
}

/// Each coordinate of `a` rounded to single precision.
pub open spec fn rounded3(a: [F64Bits; 3]) -> [u32; 3] {
    [f32_of_f64(a[0]), f32_of_f64(a[1]), f32_of_f64(a[2])]
}

/// Each coordinate of `a` rounded to single precision.
pub open spec fn rounded2(a: [F64Bits; 2]) -> [u32; 2] {
    [f32_of_f64(a[0]), f32_of_f64(a[1])]
}

/// Each channel of `c` rounded to single precision.
pub open spec fn rounded_rgb(c: Rgb<F64Bits>) -> Rgb<u32> {
    Rgb { r: f32_of_f64(c.r), g: f32_of_f64(c.g), b: f32_of_f64(c.b) }
}

/// `o` is the parsed object `p` with every number rounded to single precision.
pub open spec fn object_rounds(p: ParsedObjectView, o: Object) -> bool {
    &&& o.name@ == p.name
    &&& o.vertices@ == p.vertices.map_values(|a: [F64Bits; 3]| rounded3(a))
    &&& o.tex_vertices@ == p.tex_vertices.map_values(|a: [F64Bits; 2]| rounded2(a))
    &&& o.normals@ == p.normals.map_values(|a: [F64Bits; 3]| rounded3(a))
    &&& o.geometry@.map_values(|g: Geometry| geometry_view(g)) == p.geometry
}

/// `s` is the parsed set `p` with every number rounded to single precision.
pub open spec fn obj_set_rounds(p: ParsedObjSetView, s: ObjSet) -> bool {
    &&& match s.material_library {
        Some(l) => p.material_library == Some(l@),
        None => p.material_library is None,
    }
    &&& s.objects@.len() == p.objects.len()
    &&& forall|i: int| 0 <= i < p.objects.len() ==> object_rounds(p.objects[i], #[trigger] s.objects@[i])
}

/// `m` is the parsed material `p` with its numbers rounded to single precision; the
/// specular coefficient is also kept as read.
pub open spec fn material_rounds(p: ParsedMaterialView, m: Material) -> bool {
    &&& m.name@ == p.name
    &&& m.specular_coefficient_f64 == p.specular_coefficient
    &&& m.specular_coefficient == f32_of_f64(p.specular_coefficient)
    &&& m.color_ambient == rounded_rgb(p.color_ambient)
    &&& m.color_diffuse == rounded_rgb(p.color_diffuse)
    &&& m.color_specular == rounded_rgb(p.color_specular)
    &&& m.color_emissive == match p.color_emissive {
        Some(c) => Some(rounded_rgb(c)),
        None => None,
    }
    &&& m.alpha == f32_of_f64(p.alpha)
    &&& match m.diffuse_map {
        Some(d) => p.diffuse_map == Some(d@),
        None => p.diffuse_map is None,
    }
}

/// Each field of a material read from MTL text comes from the same field of what the parser
/// read, rounded channel by channel to single precision: the ambient color from `Ka`, the
/// diffuse color from `Kd`, the specular color from `Ks`, the emissive color from `Ke` (if
/// any), the alpha from `d`, the specular coefficient from `Ns` (also kept as read), and the
/// name and diffuse map as written.
pub open spec fn material_fields_from(p: ParsedMaterialView, m: Material) -> bool {
    &&& m.name@ == p.name
    &&& m.color_ambient.r == f32_of_f64(p.color_ambient.r)
    &&& m.color_ambient.g == f32_of_f64(p.color_ambient.g)
    &&& m.color_ambient.b == f32_of_f64(p.color_ambient.b)
    &&& m.color_diffuse.r == f32_of_f64(p.color_diffuse.r)
    &&& m.color_diffuse.g == f32_of_f64(p.color_diffuse.g)
    &&& m.color_diffuse.b == f32_of_f64(p.color_diffuse.b)
    &&& m.color_specular.r == f32_of_f64(p.color_specular.r)
    &&& m.color_specular.g == f32_of_f64(p.color_specular.g)
    &&& m.color_specular.b == f32_of_f64(p.color_specular.b)
    &&& (p.color_emissive is None <==> m.color_emissive is None)
    &&& (p.color_emissive is Some ==> m.color_emissive->0.r == f32_of_f64(p.color_emissive->0.r)
        && m.color_emissive->0.g == f32_of_f64(p.color_emissive->0.g) && m.color_emissive->0.b == f32_of_f64(
        p.color_emissive->0.b,
    ))
    &&& m.alpha == f32_of_f64(p.alpha)
    &&& m.specular_coefficient == f32_of_f64(p.specular_coefficient)
    &&& m.specular_coefficient_f64 == p.specular_coefficient
    &&& (p.diffuse_map is None <==> m.diffuse_map is None)
    &&& (m.diffuse_map is Some ==> p.diffuse_map == Some(m.diffuse_map->0@))
}

/// A rounded material carries each parsed field in its own place (see
/// `material_fields_from`): its ambient color is the rounded `Ka`, whatever `Ks` is.
pub proof fn lemma_material_fields(p: ParsedMaterialView, m: Material)
    requires
        material_rounds(p, m),
    ensures
        material_fields_from(p, m),
{
}

/// `ms` are the parsed materials `ps`, in order, each rounded.
pub open spec fn materials_round(ps: Seq<ParsedMaterialView>, ms: Seq<Material>) -> bool {
    &&& ms.len() == ps.len()
    &&& forall|i: int| 0 <= i < ps.len() ==> material_rounds(ps[i], #[trigger] ms[i])
}

fn round3(a: [F64Bits; 3]) -> (r: [u32; 3])
    ensures
        r == rounded3(a),
{
    let r = [f32_from_f64(a[0]), f32_from_f64(a[1]), f32_from_f64(a[2])];
    assert(r@ =~= rounded3(a)@);
    r
}

fn round2(a: [F64Bits; 2]) -> (r: [u32; 2])
    ensures
        r == rounded2(a),
{
    let r = [f32_from_f64(a[0]), f32_from_f64(a[1])];
    assert(r@ =~= rounded2(a)@);
    r
}

fn round_rgb(c: Rgb<F64Bits>) -> (r: Rgb<u32>)
    ensures
        r == rounded_rgb(c),
{
    Rgb::new(f32_from_f64(c.r), f32_from_f64(c.g), f32_from_f64(c.b))
}

fn round_list3(a: &Vec<[F64Bits; 3]>) -> (r: Vec<[u32; 3]>)
    ensures
        r@ == a@.map_values(|x: [F64Bits; 3]| rounded3(x)),
{
    let mut r: Vec<[u32; 3]> = Vec::new();
    let mut i: usize = 0;
    while i < a.len()
        invariant
            i <= a@.len(),
            r@ == a@.take(i as int).map_values(|x: [F64Bits; 3]| rounded3(x)),
        decreases a@.len() - i,
    {
        r.push(round3(a[i]));
        proof {
            assert(a@.take(i + 1) =~= a@.take(i as int).push(a@[i as int]));
        }
        i = i + 1;
        assert(r@ =~= a@.take(i as int).map_values(|x: [F64Bits; 3]| rounded3(x)));
    }
    assert(a@.take(i as int) =~= a@);
    r
}

fn round_list2(a: &Vec<[F64Bits; 2]>) -> (r: Vec<[u32; 2]>)
    ensures
        r@ == a@.map_values(|x: [F64Bits; 2]| rounded2(x)),
{
    let mut r: Vec<[u32; 2]> = Vec::new();
    let mut i: usize = 0;
    while i < a.len()
        invariant
            i <= a@.len(),
            r@ == a@.take(i as int).map_values(|x: [F64Bits; 2]| rounded2(x)),
        decreases a@.len() - i,
    {
        r.push(round2(a[i]));
        proof {
            assert(a@.take(i + 1) =~= a@.take(i as int).push(a@[i as int]));
        }
        i = i + 1;
        assert(r@ =~= a@.take(i as int).map_values(|x: [F64Bits; 2]| rounded2(x)));
    }
    assert(a@.take(i as int) =~= a@);
    r
}

fn copy_name(n: &Option<String>) -> (r: Option<String>)
    ensures
        match r {
            Some(s) => *n matches Some(t) && t@ == s@,
            None => n is None,
        },
{
    match n {
        Some(s) => Some(s.clone()),
        None => None,
    }
}

fn copy_geometry(g: &Geometry) -> (r: Geometry)
    ensures
        geometry_view(r) == geometry_view(*g),
{
    let mut shapes: Vec<Primitive> = Vec::new();
    let mut i: usize = 0;
    while i < g.shapes.len()
        invariant
            i <= g.shapes@.len(),
            shapes@ == g.shapes@.take(i as int),
        decreases g.shapes@.len() - i,
    {
        shapes.push(g.shapes[i]);
        i = i + 1;
        assert(shapes@ =~= g.shapes@.take(i as int));
    }
    assert(g.shapes@.take(i as int) =~= g.shapes@);
    Geometry { material_name: copy_name(&g.material_name), shapes }
}

/// The object named `name`, with geometries `geometry` and the numbers `nums` rounded to
/// single precision.
fn round_object(name: &String, geometry: &Vec<Geometry>, nums: &ObjectNumbers) -> (o: Object)
    ensures
        o.name@ == name@,
        o.vertices@ == nums.0@.map_values(|a: [F64Bits; 3]| rounded3(a)),
        o.tex_vertices@ == nums.1@.map_values(|a: [F64Bits; 2]| rounded2(a)),
        o.normals@ == nums.2@.map_values(|a: [F64Bits; 3]| rounded3(a)),
        o.geometry@.map_values(|g: Geometry| geometry_view(g)) == geometry@.map_values(|g: Geometry| geometry_view(g)),
{
    let mut copied: Vec<Geometry> = Vec::new();
    let mut i: usize = 0;
    while i < geometry.len()
        invariant
            i <= geometry@.len(),
            copied@.len() == i,
            copied@.map_values(|g: Geometry| geometry_view(g)) == geometry@.take(i as int).map_values(
                |g: Geometry| geometry_view(g),
            ),
        decreases geometry@.len() - i,
    {
        let ghost before = copied@;
        let g = copy_geometry(&geometry[i]);
        copied.push(g);
        proof {
            let gv = |g: Geometry| geometry_view(g);
            assert forall|k: int| 0 <= k < i + 1 implies #[trigger] copied@.map_values(gv)[k]
                == geometry@.take(i + 1).map_values(gv)[k] by {
                if k < i {
                    assert(copied@[k] == before[k]);
                    assert(before.map_values(gv)[k] == geometry@.take(i as int).map_values(gv)[k]);
                } else {
                    assert(copied@[k] == g);
                }
            }
            assert(copied@.map_values(gv) =~= geometry@.take(i + 1).map_values(gv));
        }
        i = i + 1;
    }
    assert(geometry@.take(i as int) =~= geometry@);
    Object {
        name: name.clone(),
        vertices: round_list3(&nums.0),
        tex_vertices: round_list2(&nums.1),
        normals: round_list3(&nums.2),
        geometry: copied,
    }
}

/// The material `p` with its numbers rounded to single precision.
fn round_material(p: &ParsedMaterial) -> (m: Material)
    ensures
        material_rounds(p@, m),
{
    Material {
        name: p.name.clone(),
        specular_coefficient_f64: p.specular_coefficient,
        specular_coefficient: f32_from_f64(p.specular_coefficient),
        color_ambient: round_rgb(p.color_ambient),
        color_diffuse: round_rgb(p.color_diffuse),
        color_specular: round_rgb(p.color_specular),
        color_emissive: match p.color_emissive {
            Some(c) => Some(round_rgb(c)),
            None => None,
        },
        alpha: f32_from_f64(p.alpha),
        diffuse_map: copy_name(&p.diffuse_map),
    }
}

/// `o` is the object named and built as `parts` says, with the numbers `nums` rounded to
/// single precision.
pub open spec fn object_assembled(parts: (String, Vec<Geometry>), nums: ObjectNumbers, o: Object) -> bool {
    &&& o.name@ == parts.0@
    &&& o.vertices@ == nums.0@.map_values(|a: [F64Bits; 3]| rounded3(a))
    &&& o.tex_vertices@ == nums.1@.map_values(|a: [F64Bits; 2]| rounded2(a))
    &&& o.normals@ == nums.2@.map_values(|a: [F64Bits; 3]| rounded3(a))
    &&& o.geometry@.map_values(|g: Geometry| geometry_view(g)) == parts.1@.map_values(|g: Geometry| geometry_view(g))
}

/// `r` is the OBJ set that `structure` and `numbers` describe, its numbers rounded to single
/// precision.
pub open spec fn obj_set_assembled(structure: ObjStructure, numbers: Seq<ObjectNumbers>, r: ObjSet) -> bool {
    &&& match (r.material_library, structure.material_library) {
        (Some(a), Some(b)) => a@ == b@,
        (None, None) => true,
        _ => false,
    }
    &&& r.objects@.len() == structure.objects@.len()
    &&& forall|i: int|
        0 <= i < r.objects@.len() ==> object_assembled(structure.objects@[i], numbers[i], #[trigger] r.objects@[i])
}

/// Builds the OBJ set that the parser's structure and numbers describe, rounding every
/// number to single precision.
pub fn obj_set_from_parts(structure: &ObjStructure, numbers: &Vec<ObjectNumbers>) -> (r: ObjSet)
    requires
        numbers@.len() == structure.objects@.len(),
    ensures
        obj_set_assembled(*structure, numbers@, r),
{
    let mut objects: Vec<Object> = Vec::new();
    let mut i: usize = 0;
    while i < structure.objects.len()
        invariant
            i <= structure.objects@.len(),
            numbers@.len() == structure.objects@.len(),
            objects@.len() == i,
            forall|k: int| 0 <= k < i ==> object_assembled(structure.objects@[k], numbers@[k], #[trigger] objects@[k]),
        decreases structure.objects@.len() - i,
    {
        let o = round_object(&structure.objects[i].0, &structure.objects[i].1, &numbers[i]);
        objects.push(o);
        i = i + 1;
    }
    ObjSet { material_library: copy_name(&structure.material_library), objects }
}

/// Reads an OBJ text. A text that the parser could not read without overflowing (see
/// `obj_text_safe`) is refused with `None`; otherwise `None` where the parser reports an
/// error, and else what it read with every number rounded to single precision.
pub fn obj_set_from_text(text: &str) -> (r: Option<ObjSet>)
    ensures
        !obj_text_safe(text.spec_bytes()) ==> r is None,
        obj_text_safe(text.spec_bytes()) ==> match parsed_obj(text@) {
            None => r is None,
            Some(p) => r matches Some(s) && obj_set_rounds(p, s),
        },
{
    if !obj_text_is_safe(text) {
        return None;
    }
    let structure = match parse_obj_structure(text) {
        Some(s) => s,
        None => return None,
    };
    let numbers = match parse_obj_numbers(text) {
        Some(n) => n,
        None => return None,
    };
    let ghost p = parsed_obj(text@)->0;
    let set = obj_set_from_parts(&structure, &numbers);
    proof {
        assert forall|i: int| 0 <= i < p.objects.len() implies object_rounds(p.objects[i], #[trigger] set.objects@[i]) by {
            assert(object_assembled(structure.objects@[i], numbers@[i], set.objects@[i]));
            assert(structure.objects@[i].0@ == p.objects[i].name);
            assert(numbers@[i].0@ == p.objects[i].vertices);
        }
    }
    Some(set)
}

/// Rounds the numbers of parsed materials to single precision, keeping their order.
pub fn materials_from_parsed(parsed: &Vec<ParsedMaterial>) -> (r: Vec<Material>)
    ensures
        materials_round(parsed@.map_values(|m: ParsedMaterial| m@), r@),
        r@.len() == parsed@.len(),
        forall|i: int| 0 <= i < parsed@.len() ==> material_fields_from(parsed@[i]@, #[trigger] r@[i]),
{
    let mut materials: Vec<Material> = Vec::new();
    let mut i: usize = 0;
    while i < parsed.len()
        invariant
            i <= parsed@.len(),
            materials@.len() == i,
            forall|k: int| 0 <= k < i ==> material_rounds(parsed@[k]@, #[trigger] materials@[k]),
        decreases parsed@.len() - i,
    {
        materials.push(round_material(&parsed[i]));
        i = i + 1;
    }
    proof {
        let ps = parsed@.map_values(|m: ParsedMaterial| m@);
        assert forall|k: int| 0 <= k < ps.len() implies material_rounds(ps[k], #[trigger] materials@[k]) by {
            assert(ps[k] == parsed@[k]@);
        }
        assert forall|k: int| 0 <= k < parsed@.len() implies material_fields_from(parsed@[k]@, #[trigger] materials@[k]) by {
            lemma_material_fields(parsed@[k]@, materials@[k]);
        }
    }
    materials
}

/// Reads an MTL text: `None` where the parser reports an error, otherwise its materials in
/// order, with their numbers rounded to single precision.
pub fn materials_from_text(text: &str) -> (r: Option<Vec<Material>>)
    ensures
        match parsed_mtl(text@) {
            None => r is None,
            Some(ps) => r matches Some(ms) && materials_round(ps, ms@) && ms@.len() == ps.len() && forall|i: int|
                0 <= i < ps.len() ==> material_fields_from(ps[i], #[trigger] ms@[i]),
        },
{
    match parse_mtl_text(text) {
        Some(parsed) => Some(materials_from_parsed(&parsed)),
        None => None,
    }
}

} // verus!
