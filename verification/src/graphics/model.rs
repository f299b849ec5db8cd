//! The data handling of the first-generation (OpenGL) model: picking its mesh and texture,
//! and cutting the flat lists of an OBJ mesh into vertices and triangles.
use vstd::prelude::*;

verus! {

/// The texture file of a model whose first material names `diffuse_texture` (if the model
/// has a material): the resource directory, a slash, and the file name. No material, or an
/// empty file name, means no texture.
pub fn diffuse_texture_path(resource_path: &str, diffuse_texture: Option<&str>) -> (r: Option<String>)
    ensures
        match diffuse_texture {
            None => r is None,
            Some(t) => if t@.len() == 0 {
                r is None
            } else {
                r matches Some(p) && p@ == resource_path@ + "/"@ + t@
            },
        },
{
    match diffuse_texture {
        None => None,
        Some(t) => if t.is_empty() {
            None
        } else {
            let mut path = String::from_str(resource_path);
            path.append("/");
            path.append(t);
            Some(path)
        },
    }
}

/// The material id that the model's mesh must have: the first material (id 0) when there is
/// one, none otherwise.
pub open spec fn wanted_material(has_material: bool) -> Option<usize> {
    if has_material { Some(0) } else { None }
}

/// The position of the first model whose mesh has the wanted material, given the material
/// ids of the models' meshes in order.
pub fn first_model_with_material(material_ids: &Vec<Option<usize>>, has_material: bool) -> (r: Option<usize>)
    ensures
        match r {
            Some(j) => j < material_ids@.len() && material_ids@[j as int] == wanted_material(has_material)
                && forall|i: int| 0 <= i < j ==> material_ids@[i] != wanted_material(has_material),
            None => forall|i: int| 0 <= i < material_ids@.len() ==> material_ids@[i] != wanted_material(has_material),
        },
{
    let wanted: Option<usize> = if has_material { Some(0) } else { None };
    let mut j: usize = 0;
    while j < material_ids.len()
        invariant
            j <= material_ids@.len(),
            wanted == wanted_material(has_material),
            forall|i: int| 0 <= i < j ==> material_ids@[i] != wanted,
        decreases material_ids@.len() - j,
    {
        let id = material_ids[j];
        let same = match (id, wanted) {
            (Some(a), Some(b)) => a == b,
            (None, None) => true,
            _ => false,
        };
        if same {
            return Some(j);
        }
        j = j + 1;
    }
    None
}

/// Consecutive triples of `values`.
pub fn chunk_triples<T: Copy>(values: &Vec<T>) -> (r: Vec<[T; 3]>)
    requires
        values@.len() % 3 == 0,
    ensures
        r@.len() == values@.len() / 3,
        forall|k: int| 0 <= k < r@.len() ==> (#[trigger] r@[k])@ == seq![values@[3 * k], values@[3 * k + 1], values@[3 * k + 2]],
{
    let mut r: Vec<[T; 3]> = Vec::new();
    let mut k: usize = 0;
    while k < values.len() / 3
        invariant
            k <= values@.len() / 3,
            values@.len() % 3 == 0,
            r@.len() == k,
            forall|i: int| 0 <= i < k ==> (#[trigger] r@[i])@ == seq![values@[3 * i], values@[3 * i + 1], values@[3 * i + 2]],
        decreases values@.len() / 3 - k,
    {
        let t = [values[3 * k], values[3 * k + 1], values[3 * k + 2]];
        assert(t@ =~= seq![values@[3 * k], values@[3 * k + 1], values@[3 * k + 2]]);
        r.push(t);
        k = k + 1;
    }
    r
}

/// The triangles of an index list: consecutive triples of vertex positions.
pub fn triangle_indices(indices: &Vec<u32>) -> (r: Vec<[usize; 3]>)
    requires
        indices@.len() % 3 == 0,
    ensures
        r@.len() == indices@.len() / 3,
        forall|k: int| 0 <= k < r@.len() ==> (#[trigger] r@[k])@ == seq![
            indices@[3 * k] as usize,
            indices@[3 * k + 1] as usize,
            indices@[3 * k + 2] as usize,
        ],
{
    let triples = chunk_triples(indices);
    let mut r: Vec<[usize; 3]> = Vec::new();
    let mut k: usize = 0;
    while k < triples.len()
        invariant
            k <= triples@.len(),
            triples@.len() == indices@.len() / 3,
            forall|i: int| 0 <= i < triples@.len() ==> (#[trigger] triples@[i])@ == seq![indices@[3 * i], indices@[3 * i + 1], indices@[3 * i + 2]],
            r@.len() == k,
            forall|i: int| 0 <= i < k ==> (#[trigger] r@[i])@ == seq![
                indices@[3 * i] as usize,
                indices@[3 * i + 1] as usize,
                indices@[3 * i + 2] as usize,
            ],
        decreases triples@.len() - k,
    {
        let t = triples[k];
        assert(t@ == seq![indices@[3 * k], indices@[3 * k + 1], indices@[3 * k + 2]]);
        let u = [t[0] as usize, t[1] as usize, t[2] as usize];
        assert(u@ =~= seq![indices@[3 * k] as usize, indices@[3 * k + 1] as usize, indices@[3 * k + 2] as usize]);
        r.push(u);
        k = k + 1;
    }
    r
}

/// The number of chunks of `size` that a list of `len` items is cut into, the last one
/// possibly short.
pub open spec fn chunk_count(len: int, size: int) -> int {
    (len + size - 1) / size
}

/// How many vertices the three lists make: the fewest of their position, normal and
/// texture-coordinate chunks.
pub open spec fn zipped_count(p: int, n: int, t: int) -> int {
    let a = chunk_count(p, 3);
    let b = chunk_count(n, 3);
    let c = chunk_count(t, 2);
    if a <= b && a <= c { a } else if b <= c { b } else { c }
}

/// Every chunk that goes into a vertex is whole: a short last chunk would be read past its
/// end.
pub open spec fn zipped_chunks_whole(p: int, n: int, t: int) -> bool {
    let count = zipped_count(p, n, t);
    3 * count <= p && 3 * count <= n && 2 * count <= t
}

/// Computes `zipped_chunks_whole`: whether lists of these lengths can be zipped into vertices.
pub fn vertex_chunks_whole(positions: usize, normals: usize, texcoords: usize) -> (b: bool)
    ensures
        b == zipped_chunks_whole(positions as int, normals as int, texcoords as int),
{
    let (p, n, t) = (positions as u128, normals as u128, texcoords as u128);
    let a = (p + 2) / 3;
    let b = (n + 2) / 3;
    let c = (t + 1) / 2;
    let count = if a <= b && a <= c { a } else if b <= c { b } else { c };
    3 * count <= p && 3 * count <= n && 2 * count <= t
}

/// Cuts flat position, normal and texture-coordinate lists into per-vertex chunks and zips
/// them: vertex `k` takes positions and normals `3k..3k+3` and texture coordinates
/// `2k..2k+2`. The shortest list decides how many vertices there are.
pub fn zip_vertex_chunks<T: Copy>(positions: &Vec<T>, normals: &Vec<T>, texcoords: &Vec<T>) -> (r: Vec<([T; 3], [T; 3], [T; 2])>)
    requires
        zipped_chunks_whole(positions@.len() as int, normals@.len() as int, texcoords@.len() as int),
    ensures
        r@.len() == zipped_count(positions@.len() as int, normals@.len() as int, texcoords@.len() as int),
        forall|k: int| 0 <= k < r@.len() ==> {
            &&& (#[trigger] r@[k]).0@ == seq![positions@[3 * k], positions@[3 * k + 1], positions@[3 * k + 2]]
            &&& r@[k].1@ == seq![normals@[3 * k], normals@[3 * k + 1], normals@[3 * k + 2]]
            &&& r@[k].2@ == seq![texcoords@[2 * k], texcoords@[2 * k + 1]]
        },
{
    let ghost count = zipped_count(positions@.len() as int, normals@.len() as int, texcoords@.len() as int);
    let mut r: Vec<([T; 3], [T; 3], [T; 2])> = Vec::new();
    let mut k: usize = 0;
    let (np, nn, nt) = (positions.len(), normals.len(), texcoords.len());
    while 3 * k < np && 3 * k < nn && 2 * k < nt
        invariant
            k <= count,
            np == positions@.len(),
            nn == normals@.len(),
            nt == texcoords@.len(),
            count == zipped_count(positions@.len() as int, normals@.len() as int, texcoords@.len() as int),
            zipped_chunks_whole(positions@.len() as int, normals@.len() as int, texcoords@.len() as int),
            r@.len() == k,
            forall|i: int| 0 <= i < k ==> {
                &&& (#[trigger] r@[i]).0@ == seq![positions@[3 * i], positions@[3 * i + 1], positions@[3 * i + 2]]
                &&& r@[i].1@ == seq![normals@[3 * i], normals@[3 * i + 1], normals@[3 * i + 2]]
                &&& r@[i].2@ == seq![texcoords@[2 * i], texcoords@[2 * i + 1]]
            },
        decreases positions@.len() - k,
    {
        assert(k < count);
        let p = [positions[3 * k], positions[3 * k + 1], positions[3 * k + 2]];
        let n = [normals[3 * k], normals[3 * k + 1], normals[3 * k + 2]];
        let t = [texcoords[2 * k], texcoords[2 * k + 1]];
        assert(p@ =~= seq![positions@[3 * k], positions@[3 * k + 1], positions@[3 * k + 2]]);
        assert(n@ =~= seq![normals@[3 * k], normals@[3 * k + 1], normals@[3 * k + 2]]);
        assert(t@ =~= seq![texcoords@[2 * k], texcoords@[2 * k + 1]]);
        r.push((p, n, t));
        k = k + 1;
    }
    r
}

} // verus!
