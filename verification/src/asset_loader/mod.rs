//! The first-generation asset loader: OBJ sets become meshes with 16-bit indices.
pub mod data;
pub mod obj;

use vstd::prelude::*;
use crate::assets::{find_material, geometry_material, lemma_material_named, material_named};
use crate::float_bits::{f64_is_zero, f64_zero};
use crate::wavefront::{full_corners, lemma_mesh_keeps_corners, vertex_of_corner, mesh_indices, object_indices_in_range, Material, Object, corners_vertices, dedup, lemma_dedup, shapes_corners, build_geometry_mesh, geometry_mesh, object_in_range, primitive_corners, corner_in_range};
use self::data::{MaterialData, MeshData, MeshPartData, default_material};

verus! {

/// Loads assets from a directory; `root_path` is the directory that every asset path is
/// relative to.
pub struct AssetLoader {
    root_path: String,
}

impl AssetLoader {
    pub fn new(root_path: String) -> (l: Self)
        ensures
            l.root_path() == root_path,
    {
        AssetLoader { root_path }
    }

    pub closed spec fn root_path(&self) -> String {
        self.root_path
    }

    /// The directory that asset paths are relative to.
    pub fn root(&self) -> (r: &String)
        ensures
            *r == self.root_path(),
    {
        &self.root_path
    }
}

/// The material data that a (possibly missing) material gives.
pub open spec fn material_data_of(m: Option<Material>) -> MaterialData<String> {
    match m {
        None => default_material::<String>(),
        Some(mat) => MaterialData {
            specular_coefficient: mat.specular_coefficient,
            lighting: !f64_is_zero(mat.specular_coefficient_f64),
            color_ambient: [mat.color_ambient.r, mat.color_ambient.g, mat.color_ambient.b],
            color_diffuse: [mat.color_diffuse.r, mat.color_diffuse.g, mat.color_diffuse.b],
            color_specular: [mat.color_specular.r, mat.color_specular.g, mat.color_specular.b],
            color_emissive: match mat.color_emissive {
                Some(c) => [c.r, c.g, c.b],
                None => [0, 0, 0],
            },
            alpha: mat.alpha,
            diffuse_map: mat.diffuse_map,
        },
    }
}

/// Builds the material data of a mesh part from its material, or the default material when
/// there is none.
pub fn material_data(m: Option<&Material>) -> (d: MaterialData<String>)
    ensures
        d == material_data_of(
            match m {
                Some(x) => Some(*x),
                None => None,
            },
        ),
{
    match m {
        None => MaterialData::default(),
        Some(mat) => MaterialData {
            specular_coefficient: mat.specular_coefficient,
            lighting: !f64_zero(mat.specular_coefficient_f64),
            color_ambient: [mat.color_ambient.r, mat.color_ambient.g, mat.color_ambient.b],
            color_diffuse: [mat.color_diffuse.r, mat.color_diffuse.g, mat.color_diffuse.b],
            color_specular: [mat.color_specular.r, mat.color_specular.g, mat.color_specular.b],
            color_emissive: match mat.color_emissive {
                Some(c) => [c.r, c.g, c.b],
                None => [0, 0, 0],
            },
            alpha: mat.alpha,
            diffuse_map: match &mat.diffuse_map {
                Some(p) => Some(p.clone()),
                None => None,
            },
        },
    }
}

/// The part that geometry `g` of `obj` becomes: its deduplicated vertices, their positions
/// truncated to 16 bits (as a cast does), and its material.
pub open spec fn part_matches(part: MeshPartData<String>, obj: Object, g: int, materials: Seq<Material>) -> bool {
    let geometry = obj.geometry@[g];
    let mesh = geometry_mesh(obj, geometry.shapes@);
    &&& part.vertices@ == mesh.0
    &&& part.indices@ == mesh.1.map_values(|i: int| i as u16)
    &&& part.material == material_data_of(geometry_material(materials, geometry.material_name))
}

/// The mesh that `obj` becomes: one part per geometry, in order.
pub open spec fn mesh_matches(mesh: MeshData<String>, obj: Object, materials: Seq<Material>) -> bool {
    &&& mesh.parts@.len() == obj.geometry@.len()
    &&& forall|g: int| 0 <= g < obj.geometry@.len() ==> part_matches(#[trigger] mesh.parts@[g], obj, g, materials)
}

/// Builds the mesh part of geometry `g` of `obj`.
pub fn build_mesh_part(obj: &Object, g: usize, materials: &Vec<Material>) -> (part: MeshPartData<String>)
    requires
        object_in_range(*obj),
        g < obj.geometry@.len(),
    ensures
        part_matches(part, *obj, g as int, materials@),
{
    let geometry = &obj.geometry[g];
    let material = match &geometry.material_name {
        Some(name) => find_material(materials, name),
        None => None,
    };
    let mat_data = material_data(material);
    proof {
        assert forall|s: int| 0 <= s < geometry.shapes@.len() implies forall|k: int|
            0 <= k < primitive_corners(#[trigger] geometry.shapes@[s]).len() ==> corner_in_range(
                *obj,
                #[trigger] primitive_corners(geometry.shapes@[s])[k],
            ) by {
            assert(obj.geometry@[g as int].shapes@[s] == geometry.shapes@[s]);
        }
    }
    let (vertices, positions) = build_geometry_mesh(obj, &geometry.shapes);
    let indices: Vec<u16> = mesh_indices(&positions);
    proof {
        let mesh = geometry_mesh(*obj, geometry.shapes@);
        assert(indices@ =~= mesh.1.map_values(|x: int| x as u16)) by {
            assert(positions@.map_values(|p: usize| p as int) == mesh.1);
            assert forall|j: int| 0 <= j < indices@.len() implies indices@[j] == mesh.1.map_values(
                |x: int| x as u16,
            )[j] by {
                assert(mesh.1[j] == positions@.map_values(|p: usize| p as int)[j]);
            }
        }
    }
    MeshPartData { vertices, indices, material: mat_data }
}

/// Builds the mesh of every object of an OBJ set, each part with the first material of
/// `materials` that bears the name its geometry asks for.
pub fn build_obj_set(objects: &Vec<Object>, materials: &Vec<Material>) -> (meshes: Vec<MeshData<String>>)
    requires
        forall|o: int| 0 <= o < objects@.len() ==> object_in_range(#[trigger] objects@[o]),
    ensures
        meshes@.len() == objects@.len(),
        forall|o: int| 0 <= o < objects@.len() ==> mesh_matches(#[trigger] meshes@[o], objects@[o], materials@),
{
    let mut meshes: Vec<MeshData<String>> = Vec::new();
    let mut o: usize = 0;
    while o < objects.len()
        invariant
            0 <= o <= objects@.len(),
            forall|x: int| 0 <= x < objects@.len() ==> object_in_range(#[trigger] objects@[x]),
            meshes@.len() == o,
            forall|x: int| 0 <= x < o ==> mesh_matches(#[trigger] meshes@[x], objects@[x], materials@),
        decreases objects@.len() - o,
    {
        let obj = &objects[o];
        let mut parts: Vec<MeshPartData<String>> = Vec::new();
        let mut g: usize = 0;
        while g < obj.geometry.len()
            invariant
                0 <= g <= obj.geometry@.len(),
                object_in_range(*obj),
                parts@.len() == g,
                forall|x: int| 0 <= x < g ==> part_matches(#[trigger] parts@[x], *obj, x, materials@),
            decreases obj.geometry@.len() - g,
        {
            let part = build_mesh_part(obj, g, materials);
            parts.push(part);
            g = g + 1;
        }
        meshes.push(MeshData { parts });
        o = o + 1;
    }
    meshes
}

/// Builds the meshes of `objects` when every face of every object names existing positions,
/// texture coordinates and normals; `None` when some face does not.
pub fn build_obj_set_checked(objects: &Vec<Object>, materials: &Vec<Material>) -> (r: Option<Vec<MeshData<String>>>)
    ensures
        r is Some <==> forall|o: int| 0 <= o < objects@.len() ==> object_in_range(#[trigger] objects@[o]),
        r matches Some(meshes) ==> meshes@.len() == objects@.len() && forall|o: int|
            0 <= o < objects@.len() ==> mesh_matches(#[trigger] meshes@[o], objects@[o], materials@),
{
    let mut o: usize = 0;
    while o < objects.len()
        invariant
            o <= objects@.len(),
            forall|x: int| 0 <= x < o ==> object_in_range(#[trigger] objects@[x]),
        decreases objects@.len() - o,
    {
        if !object_indices_in_range(&objects[o]) {
            return None;
        }
        o = o + 1;
    }
    Some(build_obj_set(objects, materials))
}

/// The part's material data carries the material's own fields: its specular coefficient,
/// its colors as arrays (black where it has no emissive color), its alpha and its diffuse
/// map, and it is lit unless its specular coefficient is zero.
pub open spec fn material_carried(d: MaterialData<String>, m: Material) -> bool {
    &&& d.specular_coefficient == m.specular_coefficient
    &&& d.lighting == !f64_is_zero(m.specular_coefficient_f64)
    &&& d.color_ambient == [m.color_ambient.r, m.color_ambient.g, m.color_ambient.b]
    &&& d.color_diffuse == [m.color_diffuse.r, m.color_diffuse.g, m.color_diffuse.b]
    &&& d.color_specular == [m.color_specular.r, m.color_specular.g, m.color_specular.b]
    &&& d.color_emissive == match m.color_emissive {
        Some(c) => [c.r, c.g, c.b],
        None => [0u32, 0u32, 0u32],
    }
    &&& d.alpha == m.alpha
    &&& d.diffuse_map == m.diffuse_map
}

/// A built part's material is that of the first material bearing the name its geometry
/// asks for, field by field (`material_carried`); a geometry that names no material, or one
/// that no material bears, gets the default material.
pub proof fn lemma_part_material(part: MeshPartData<String>, obj: Object, g: int, materials: Seq<Material>)
    requires
        0 <= g < obj.geometry@.len(),
        part_matches(part, obj, g, materials),
    ensures
        match obj.geometry@[g].material_name {
            Some(n) => (exists|j: int|
                0 <= j < materials.len() && materials[j].name@ == n@ && (forall|i: int|
                    0 <= i < j ==> (#[trigger] materials[i]).name@ != n@) && #[trigger] material_carried(
                    part.material,
                    materials[j],
                )) || ((forall|i: int| 0 <= i < materials.len() ==> (#[trigger] materials[i]).name@ != n@)
                && part.material == default_material::<String>()),
            None => part.material == default_material::<String>(),
        },
{
    if let Some(n) = obj.geometry@[g].material_name {
        lemma_material_named(materials, n@);
        if material_named(materials, n@) is Some {
            let j = choose|j: int|
                0 <= j < materials.len() && (#[trigger] materials[j]).name@ == n@ && material_named(materials, n@)
                    == Some(materials[j]) && forall|i: int| 0 <= i < j ==> (#[trigger] materials[i]).name@ != n@;
            assert(material_carried(part.material, materials[j]));
        }
    }
}

/// Every index of a built part names a stored vertex with the position, normal and texture
/// coordinate, float by float, of the corner it stands for (the part's index list has one
/// index for each corner with a texture coordinate and a normal, in order), as long as the
/// part has no more vertices than its indices can count.
pub proof fn lemma_part_keeps_corners(part: MeshPartData<String>, obj: Object, g: int, materials: Seq<Material>)
    requires
        0 <= g < obj.geometry@.len(),
        part_matches(part, obj, g, materials),
        part.vertices@.len() <= u16::MAX + 1,
    ensures
        ({
            let fc = full_corners(shapes_corners(obj.geometry@[g].shapes@));
            &&& part.indices@.len() == fc.len()
            &&& forall|k: int|
                #![trigger part.indices@[k]]
                0 <= k < fc.len() ==> part.indices@[k] < part.vertices@.len() && vertex_of_corner(
                    part.vertices@[part.indices@[k] as int],
                    obj,
                    fc[k],
                )
        }),
{
    let shapes = obj.geometry@[g].shapes@;
    let mesh = geometry_mesh(obj, shapes);
    let fc = full_corners(shapes_corners(shapes));
    lemma_mesh_keeps_corners(obj, shapes);
    assert(part.indices@.len() == fc.len());
    assert forall|k: int| #![trigger part.indices@[k]] 0 <= k < fc.len() implies part.indices@[k] < part.vertices@.len()
        && vertex_of_corner(part.vertices@[part.indices@[k] as int], obj, fc[k]) by {
        let c = fc[k];
        assert(0 <= mesh.1[k] < mesh.0.len() && vertex_of_corner(mesh.0[mesh.1[k]], obj, c));
        assert(part.indices@[k] == mesh.1.map_values(|i: int| i as u16)[k]);
        assert(part.indices@[k] as int == mesh.1[k]);
    }
}

/// Every index of a built part names one of the part's vertices, as long as the part has
/// no more vertices than its `u16` indices can count; and there is one index for each
/// corner that has a texture coordinate and a normal.
pub proof fn lemma_part_indices_in_range(part: MeshPartData<String>, obj: Object, g: int, materials: Seq<Material>)
    requires
        0 <= g < obj.geometry@.len(),
        part_matches(part, obj, g, materials),
        part.vertices@.len() <= u16::MAX + 1,
    ensures
        part.indices@.len() == corners_vertices(obj, shapes_corners(obj.geometry@[g].shapes@)).len(),
        forall|k: int| 0 <= k < part.indices@.len() ==> (#[trigger] part.indices@[k]) < part.vertices@.len(),
{
    let inputs = corners_vertices(obj, shapes_corners(obj.geometry@[g].shapes@));
    lemma_dedup(inputs);
    let idx = dedup(inputs).1;
    assert forall|k: int| 0 <= k < part.indices@.len() implies (#[trigger] part.indices@[k]) < part.vertices@.len() by {
        assert(part.indices@[k] == idx.map_values(|i: int| i as u16)[k]);
        assert(0 <= idx[k] < part.vertices@.len());
    }
}

} // verus!
