//! Turning parsed OBJ/MTL sets into mesh data, and the asset loader's root.
pub mod data;
pub mod scene;
pub mod texture_map;

use vstd::prelude::*;
use crate::float_bits::{f64_is_zero, f64_zero};
use crate::graphics::color::Rgb;
use crate::wavefront::{full_corners, lemma_mesh_keeps_corners, vertex_of_corner, mesh_indices, Material, Object, corners_vertices, dedup, lemma_dedup, shapes_corners, ObjSet, build_geometry_mesh, geometry_mesh, object_in_range};
use self::data::{MaterialData, MeshData, MeshPartData, default_material};
use crate::wavefront::object_indices_in_range;
use crate::wavefront_text::{materials_from_text, materials_round, parsed_mtl};

verus! {

/// Loads assets from a directory; `root_path` is the directory that every asset path is
/// relative to.
pub struct AssetLoader {
    root_path: String,
}

/// Errors of the asset loader's own making.
#[derive(Debug, PartialEq, Eq, Clone, Copy)]
pub enum AssetError {
    /// The OBJ file names no material library.
    MissingMaterialLibrary,
    /// The material library's text does not parse.
    BadMaterialSet,
    /// A face names a position, texture coordinate or normal that its object lacks.
    IndexOutOfRange,
}

impl AssetLoader {
    pub fn new(root_path: String) -> (l: Self)
        ensures
            l.root_path() == root_path,
    {
        AssetLoader { root_path }
    }

    pub closed spec fn root_path(&self) -> String {
        self.root_path
    }

    /// The directory that asset paths are relative to.
    pub fn root(&self) -> (r: &String)
        ensures
            *r == self.root_path(),
    {
        &self.root_path
    }
}

/// The material library that an OBJ set must name: its models need at least one material.
pub fn material_library(obj_set: &ObjSet) -> (r: Result<String, AssetError>)
    ensures
        match obj_set.material_library {
            Some(lib) => r == Ok::<String, AssetError>(lib),
            None => r == Err::<String, AssetError>(AssetError::MissingMaterialLibrary),
        },
{
    match &obj_set.material_library {
        Some(lib) => Ok(lib.clone()),
        None => Err(AssetError::MissingMaterialLibrary),
    }
}

/// The first material of `materials` whose name is `name`.
pub open spec fn material_named(materials: Seq<Material>, name: Seq<char>) -> Option<Material>
    decreases materials.len(),
{
    if materials.len() == 0 {
        None
    } else if materials[0].name@ == name {
        Some(materials[0])
    } else {
        material_named(materials.drop_first(), name)
    }
}

/// The material that a geometry asks for: none when it names none or names an unknown one.
pub open spec fn geometry_material(materials: Seq<Material>, name: Option<String>) -> Option<Material> {
    match name {
        Some(n) => material_named(materials, n@),
        None => None,
    }
}

/// The material data that a (possibly missing) material gives.
pub open spec fn material_data_of(m: Option<Material>) -> MaterialData<String> {
    match m {
        None => default_material::<String>(),
        Some(mat) => MaterialData {
            specular_coefficient: mat.specular_coefficient,
            lighting: !f64_is_zero(mat.specular_coefficient_f64),
            color_ambient: mat.color_ambient,
            color_diffuse: mat.color_diffuse,
            color_specular: mat.color_specular,
            color_emissive: match mat.color_emissive {
                Some(c) => c,
                None => Rgb { r: 0, g: 0, b: 0 },
            },
            alpha: mat.alpha,
            diffuse_map: mat.diffuse_map,
        },
    }
}

/// Finds the first material named `name`.
pub fn find_material<'a>(materials: &'a Vec<Material>, name: &String) -> (r: Option<&'a Material>)
    ensures
        match r {
            Some(m) => material_named(materials@, name@) == Some(*m),
            None => material_named(materials@, name@) == None::<Material>,
        },
{
    let mut i: usize = 0;
    proof {
        assert(materials@.skip(0) =~= materials@);
    }
    while i < materials.len()
        invariant
            0 <= i <= materials@.len(),
            material_named(materials@, name@) == material_named(materials@.skip(i as int), name@),
        decreases materials@.len() - i,
    {
        proof {
            assert(materials@.skip(i as int).drop_first() =~= materials@.skip(i + 1));
            assert(materials@.skip(i as int)[0] == materials@[i as int]);
        }
        if materials[i].name == *name {
            return Some(&materials[i]);
        }
        i = i + 1;
    }
    proof {
        assert(materials@.skip(i as int) =~= Seq::<Material>::empty());
    }
    None
}

/// Builds the material data of a mesh part from its material, or the default material when
/// there is none.
pub fn material_data(m: Option<&Material>) -> (d: MaterialData<String>)
    ensures
        d == material_data_of(
            match m {
                Some(x) => Some(*x),
                None => None,
            },
        ),
{
    match m {
        None => MaterialData::default(),
        Some(mat) => MaterialData {
            specular_coefficient: mat.specular_coefficient,
            lighting: !f64_zero(mat.specular_coefficient_f64),
            color_ambient: mat.color_ambient,
            color_diffuse: mat.color_diffuse,
            color_specular: mat.color_specular,
            color_emissive: match mat.color_emissive {
                Some(c) => c,
                None => Rgb::new(0, 0, 0),
            },
            alpha: mat.alpha,
            diffuse_map: match &mat.diffuse_map {
                Some(p) => Some(p.clone()),
                None => None,
            },
        },
    }
}

/// The part that geometry `g` of `obj` becomes: its deduplicated vertices, their positions
/// as `u32` (truncated, as a cast does), and its material.
pub open spec fn part_matches(part: MeshPartData<String>, obj: Object, g: int, materials: Seq<Material>) -> bool {
    let geometry = obj.geometry@[g];
    let mesh = geometry_mesh(obj, geometry.shapes@);
    &&& part.vertices@ == mesh.0
    &&& part.indices@ == mesh.1.map_values(|i: int| i as u32)
    &&& part.material == material_data_of(geometry_material(materials, geometry.material_name))
}

/// The mesh that `obj` becomes: one part per geometry, in order.
pub open spec fn mesh_matches(mesh: MeshData<String>, obj: Object, materials: Seq<Material>) -> bool {
    &&& mesh.parts@.len() == obj.geometry@.len()
    &&& forall|g: int| 0 <= g < obj.geometry@.len() ==> part_matches(#[trigger] mesh.parts@[g], obj, g, materials)
}

/// Builds the mesh part of geometry `g` of `obj`.
pub fn build_mesh_part(obj: &Object, g: usize, materials: &Vec<Material>) -> (part: MeshPartData<String>)
    requires
        object_in_range(*obj),
        g < obj.geometry@.len(),
    ensures
        part_matches(part, *obj, g as int, materials@),
{
    let geometry = &obj.geometry[g];
    let material = match &geometry.material_name {
        Some(name) => find_material(materials, name),
        None => None,
    };
    let mat_data = material_data(material);
    proof {
        assert forall|s: int| 0 <= s < geometry.shapes@.len() implies forall|k: int|
            0 <= k < crate::wavefront::primitive_corners(#[trigger] geometry.shapes@[s]).len()
                ==> crate::wavefront::corner_in_range(
                *obj,
                #[trigger] crate::wavefront::primitive_corners(geometry.shapes@[s])[k],
            ) by {
            assert(obj.geometry@[g as int].shapes@[s] == geometry.shapes@[s]);
        }
    }
    let (vertices, positions) = build_geometry_mesh(obj, &geometry.shapes);
    let indices: Vec<u32> = mesh_indices(&positions);
    proof {
        let mesh = geometry_mesh(*obj, geometry.shapes@);
        assert(indices@ =~= mesh.1.map_values(|x: int| x as u32)) by {
            assert(positions@.map_values(|p: usize| p as int) == mesh.1);
            assert forall|j: int| 0 <= j < indices@.len() implies indices@[j] == mesh.1.map_values(
                |x: int| x as u32,
            )[j] by {
                assert(mesh.1[j] == positions@.map_values(|p: usize| p as int)[j]);
            }
        }
    }
    MeshPartData { vertices, indices, material: mat_data }
}

/// Builds the mesh of every object of an OBJ set, each part with the first material of
/// `materials` that bears the name its geometry asks for.
pub fn build_obj_set(objects: &Vec<Object>, materials: &Vec<Material>) -> (meshes: Vec<MeshData<String>>)
    requires
        forall|o: int| 0 <= o < objects@.len() ==> object_in_range(#[trigger] objects@[o]),
    ensures
        meshes@.len() == objects@.len(),
        forall|o: int| 0 <= o < objects@.len() ==> mesh_matches(#[trigger] meshes@[o], objects@[o], materials@),
{
    let mut meshes: Vec<MeshData<String>> = Vec::new();
    let mut o: usize = 0;
    while o < objects.len()
        invariant
            0 <= o <= objects@.len(),
            forall|x: int| 0 <= x < objects@.len() ==> object_in_range(#[trigger] objects@[x]),
            meshes@.len() == o,
            forall|x: int| 0 <= x < o ==> mesh_matches(#[trigger] meshes@[x], objects@[x], materials@),
        decreases objects@.len() - o,
    {
        let obj = &objects[o];
        let mut parts: Vec<MeshPartData<String>> = Vec::new();
        let mut g: usize = 0;
        while g < obj.geometry.len()
            invariant
                0 <= g <= obj.geometry@.len(),
                object_in_range(*obj),
                parts@.len() == g,
                forall|x: int| 0 <= x < g ==> part_matches(#[trigger] parts@[x], *obj, x, materials@),
            decreases obj.geometry@.len() - g,
        {
            let part = build_mesh_part(obj, g, materials);
            parts.push(part);
            g = g + 1;
        }
        meshes.push(MeshData { parts });
        o = o + 1;
    }
    meshes
}

/// Builds the meshes of a read OBJ set, with the materials of its material library, whose
/// text is `mtl_text`:
/// - `MissingMaterialLibrary` when the set names no material library;
/// - otherwise `BadMaterialSet` when the library's text does not parse;
/// - otherwise `IndexOutOfRange` when a face of some object names a position, texture
///   coordinate or normal that the object lacks;
/// - otherwise one mesh per object, each built with the library's materials rounded to
///   single precision.
pub fn meshes_from_text(obj_set: &ObjSet, mtl_text: &str) -> (r: Result<Vec<MeshData<String>>, AssetError>)
    ensures
        obj_set.material_library is None ==> r == Err::<Vec<MeshData<String>>, AssetError>(
            AssetError::MissingMaterialLibrary,
        ),
        obj_set.material_library is Some && parsed_mtl(mtl_text@) is None ==> r == Err::<
            Vec<MeshData<String>>,
            AssetError,
        >(AssetError::BadMaterialSet),
        obj_set.material_library is Some && parsed_mtl(mtl_text@) is Some && !(forall|o: int|
            0 <= o < obj_set.objects@.len() ==> object_in_range(#[trigger] obj_set.objects@[o]))
            ==> r == Err::<Vec<MeshData<String>>, AssetError>(AssetError::IndexOutOfRange),
        obj_set.material_library is Some && parsed_mtl(mtl_text@) is Some && (forall|o: int|
            0 <= o < obj_set.objects@.len() ==> object_in_range(#[trigger] obj_set.objects@[o]))
            ==> (r matches Ok(meshes) && meshes@.len() == obj_set.objects@.len() && exists|mats: Seq<Material>|
            #[trigger] materials_round(parsed_mtl(mtl_text@)->0, mats) && forall|o: int|
                0 <= o < obj_set.objects@.len() ==> mesh_matches(#[trigger] meshes@[o], obj_set.objects@[o], mats)),
{
    if obj_set.material_library.is_none() {
        return Err(AssetError::MissingMaterialLibrary);
    }
    let materials = match materials_from_text(mtl_text) {
        Some(m) => m,
        None => return Err(AssetError::BadMaterialSet),
    };
    let mut o: usize = 0;
    while o < obj_set.objects.len()
        invariant
            o <= obj_set.objects@.len(),
            obj_set.material_library is Some,
            parsed_mtl(mtl_text@) is Some,
            forall|x: int| 0 <= x < o ==> object_in_range(#[trigger] obj_set.objects@[x]),
        decreases obj_set.objects@.len() - o,
    {
        if !object_indices_in_range(&obj_set.objects[o]) {
            return Err(AssetError::IndexOutOfRange);
        }
        o = o + 1;
    }
    let meshes = build_obj_set(&obj_set.objects, &materials);
    proof {
        assert(materials_round(parsed_mtl(mtl_text@)->0, materials@));
    }
    Ok(meshes)
}

/// `material_named` picks the first material that bears the name, or none when no material
/// does.
pub proof fn lemma_material_named(materials: Seq<Material>, name: Seq<char>)
    ensures
        material_named(materials, name) is None ==> forall|i: int| 0 <= i < materials.len() ==> (#[trigger] materials[i]).name@ != name,
        material_named(materials, name) is Some ==> exists|j: int|
            0 <= j < materials.len() && (#[trigger] materials[j]).name@ == name && material_named(materials, name)
                == Some(materials[j]) && forall|i: int| 0 <= i < j ==> (#[trigger] materials[i]).name@ != name,
    decreases materials.len(),
{
    if materials.len() > 0 && materials[0].name@ != name {
        let rest = materials.drop_first();
        lemma_material_named(rest, name);
        assert forall|i: int| 0 <= i < rest.len() implies rest[i] == materials[i + 1] by {}
        if material_named(rest, name) is Some {
            let j = choose|j: int|
                0 <= j < rest.len() && (#[trigger] rest[j]).name@ == name && material_named(rest, name) == Some(rest[j])
                    && forall|i: int| 0 <= i < j ==> (#[trigger] rest[i]).name@ != name;
            assert(materials[j + 1] == rest[j]);
            assert forall|i: int| 0 <= i < j + 1 implies (#[trigger] materials[i]).name@ != name by {
                if i > 0 {
                    assert(materials[i] == rest[i - 1]);
                }
            }
        } else {
            assert forall|i: int| 0 <= i < materials.len() implies (#[trigger] materials[i]).name@ != name by {
                if i > 0 {
                    assert(materials[i] == rest[i - 1]);
                }
            }
        }
    } else if materials.len() > 0 {
        assert(materials[0].name@ == name);
    }
}

/// The part's material data carries the material's own fields: its specular coefficient,
/// its colors (black where it has no emissive color), its alpha and its diffuse map, and it
/// is lit unless its specular coefficient is zero.
pub open spec fn material_carried(d: MaterialData<String>, m: Material) -> bool {
    &&& d.specular_coefficient == m.specular_coefficient
    &&& d.lighting == !f64_is_zero(m.specular_coefficient_f64)
    &&& d.color_ambient == m.color_ambient
    &&& d.color_diffuse == m.color_diffuse
    &&& d.color_specular == m.color_specular
    &&& d.color_emissive == match m.color_emissive {
        Some(c) => c,
        None => Rgb { r: 0, g: 0, b: 0 },
    }
    &&& d.alpha == m.alpha
    &&& d.diffuse_map == m.diffuse_map
}

/// A built part's material is that of the first material bearing the name its geometry
/// asks for, field by field (`material_carried`); a geometry that names no material, or one
/// that no material bears, gets the default material.
pub proof fn lemma_part_material(part: MeshPartData<String>, obj: Object, g: int, materials: Seq<Material>)
    requires
        0 <= g < obj.geometry@.len(),
        part_matches(part, obj, g, materials),
    ensures
        match obj.geometry@[g].material_name {
            Some(n) => (exists|j: int|
                0 <= j < materials.len() && materials[j].name@ == n@ && (forall|i: int|
                    0 <= i < j ==> (#[trigger] materials[i]).name@ != n@) && #[trigger] material_carried(
                    part.material,
                    materials[j],
                )) || ((forall|i: int| 0 <= i < materials.len() ==> (#[trigger] materials[i]).name@ != n@)
                && part.material == default_material::<String>()),
            None => part.material == default_material::<String>(),
        },
{
    if let Some(n) = obj.geometry@[g].material_name {
        lemma_material_named(materials, n@);
        if material_named(materials, n@) is Some {
            let j = choose|j: int|
                0 <= j < materials.len() && (#[trigger] materials[j]).name@ == n@ && material_named(materials, n@)
                    == Some(materials[j]) && forall|i: int| 0 <= i < j ==> (#[trigger] materials[i]).name@ != n@;
            assert(material_carried(part.material, materials[j]));
        }
    }
}

/// Every index of a built part names a stored vertex with the position, normal and texture
/// coordinate, float by float, of the corner it stands for (the part's index list has one
/// index for each corner with a texture coordinate and a normal, in order), as long as the
/// part has no more vertices than its indices can count.
pub proof fn lemma_part_keeps_corners(part: MeshPartData<String>, obj: Object, g: int, materials: Seq<Material>)
    requires
        0 <= g < obj.geometry@.len(),
        part_matches(part, obj, g, materials),
        part.vertices@.len() <= u32::MAX + 1,
    ensures
        ({
            let fc = full_corners(shapes_corners(obj.geometry@[g].shapes@));
            &&& part.indices@.len() == fc.len()
            &&& forall|k: int|
                #![trigger part.indices@[k]]
                0 <= k < fc.len() ==> part.indices@[k] < part.vertices@.len() && vertex_of_corner(
                    part.vertices@[part.indices@[k] as int],
                    obj,
                    fc[k],
                )
        }),
{
    let shapes = obj.geometry@[g].shapes@;
    let mesh = geometry_mesh(obj, shapes);
    let fc = full_corners(shapes_corners(shapes));
    lemma_mesh_keeps_corners(obj, shapes);
    assert(part.indices@.len() == fc.len());
    assert forall|k: int| #![trigger part.indices@[k]] 0 <= k < fc.len() implies part.indices@[k] < part.vertices@.len()
        && vertex_of_corner(part.vertices@[part.indices@[k] as int], obj, fc[k]) by {
        let c = fc[k];
        assert(0 <= mesh.1[k] < mesh.0.len() && vertex_of_corner(mesh.0[mesh.1[k]], obj, c));
        assert(part.indices@[k] == mesh.1.map_values(|i: int| i as u32)[k]);
        assert(part.indices@[k] as int == mesh.1[k]);
    }
}

/// Every index of a built part names one of the part's vertices, as long as the part has
/// no more vertices than its `u32` indices can count; and there is one index for each
/// corner that has a texture coordinate and a normal.
pub proof fn lemma_part_indices_in_range(part: MeshPartData<String>, obj: Object, g: int, materials: Seq<Material>)
    requires
        0 <= g < obj.geometry@.len(),
        part_matches(part, obj, g, materials),
        part.vertices@.len() <= u32::MAX + 1,
    ensures
        part.indices@.len() == corners_vertices(obj, shapes_corners(obj.geometry@[g].shapes@)).len(),
        forall|k: int| 0 <= k < part.indices@.len() ==> (#[trigger] part.indices@[k]) < part.vertices@.len(),
{
    let inputs = corners_vertices(obj, shapes_corners(obj.geometry@[g].shapes@));
    lemma_dedup(inputs);
    let idx = dedup(inputs).1;
    assert forall|k: int| 0 <= k < part.indices@.len() implies (#[trigger] part.indices@[k]) < part.vertices@.len() by {
        assert(part.indices@[k] == idx.map_values(|i: int| i as u32)[k]);
        assert(0 <= idx[k] < part.vertices@.len());
    }
}

} // verus!
