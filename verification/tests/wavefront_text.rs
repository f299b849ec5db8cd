use engine::assets::{meshes_from_text, AssetError};
use engine::graphics::model::vertex_chunks_whole;
use engine::wavefront::{object_indices_in_range, Primitive};
use engine::wavefront_text::{materials_from_parsed, materials_from_text, obj_set_from_parts, obj_set_from_text, obj_text_is_safe, ObjStructure, ParsedMaterial};
use engine::graphics::color::Rgb;
use engine::wavefront::Geometry;

const CUBE_OBJ: &str = "mtllib cube.mtl
o cube
v 0 0 0
v 1 0 0
v 0 1 0
vt 0 0
vt 1 1
vn 0 0 1
usemtl red
f 1/1/1 2/2/1 3/1/1
f 1/1/1 2/2/1 3/1/1
";

const CUBE_MTL: &str = "newmtl red
Ns 10
Ka 1 1 1
Kd 1 0 0
Ks 0.5 0.5 0.5
d 0.25
illum 2
map_Kd red.png
";

fn b(x: f32) -> u32 {
    x.to_bits()
}

#[test]
fn obj_text_is_read_and_rounded() {
    let set = obj_set_from_text(CUBE_OBJ).expect("the text parses");
    assert_eq!(set.material_library.as_deref(), Some("cube.mtl"));
    assert_eq!(set.objects.len(), 1);
    let o = &set.objects[0];
    assert_eq!(o.name, "cube");
    assert_eq!(o.vertices, vec![[b(0.0), b(0.0), b(0.0)], [b(1.0), b(0.0), b(0.0)], [b(0.0), b(1.0), b(0.0)]]);
    assert_eq!(o.tex_vertices, vec![[b(0.0), b(0.0)], [b(1.0), b(1.0)]]);
    assert_eq!(o.normals, vec![[b(0.0), b(0.0), b(1.0)]]);
    assert_eq!(o.geometry.len(), 1);
    assert_eq!(o.geometry[0].material_name.as_deref(), Some("red"));
    assert_eq!(o.geometry[0].shapes.len(), 2);
    // The parser may start a triangle at any of its corners; the corners are the file's,
    // counted from zero.
    match o.geometry[0].shapes[0] {
        Primitive::Triangle(a, b, c) => {
            let mut corners = vec![a, b, c];
            corners.sort();
            assert_eq!(corners, vec![(0, Some(0), Some(0)), (1, Some(1), Some(0)), (2, Some(0), Some(0))]);
        }
        other => panic!("expected a triangle, got {:?}", other),
    }
    assert!(object_indices_in_range(o));
}

#[test]
fn numbers_are_rounded_to_single_precision() {
    let set = obj_set_from_text("o p\nv 0.1 16777217 1e300\n").expect("the text parses");
    assert_eq!(set.objects[0].vertices, vec![[b(0.1), b(16777216.0), b(f32::INFINITY)]]);
}

#[test]
fn bad_obj_text_is_refused() {
    assert!(obj_set_from_text("o x\nv 1 2\nf 1 2 3 4 5 nonsense\n").is_none());
}

#[test]
fn mtl_text_is_read_and_rounded() {
    let ms = materials_from_text(CUBE_MTL).expect("the text parses");
    assert_eq!(ms.len(), 1);
    let m = &ms[0];
    assert_eq!(m.name, "red");
    assert_eq!(m.specular_coefficient, b(10.0));
    assert_eq!(m.specular_coefficient_f64, 10.0f64.to_bits());
    assert_eq!((m.color_diffuse.r, m.color_diffuse.g, m.color_diffuse.b), (b(1.0), b(0.0), b(0.0)));
    assert_eq!(m.color_specular.g, b(0.5));
    assert_eq!(m.alpha, b(0.25));
    assert!(m.color_emissive.is_none());
    assert_eq!(m.diffuse_map.as_deref(), Some("red.png"));
    assert!(materials_from_text("newmtl red\nKd 1 0 0\n").is_none());
}

#[test]
fn meshes_are_built_from_the_texts() {
    let set = obj_set_from_text(CUBE_OBJ).unwrap();
    let meshes = meshes_from_text(&set, CUBE_MTL).unwrap_or_else(|e| panic!("{:?}", e));
    assert_eq!(meshes.len(), 1);
    let part = &meshes[0].parts[0];
    // The second face repeats the first: its corners reuse the stored vertices.
    assert_eq!(part.vertices.len(), 3);
    assert_eq!(part.indices.len(), 6);
    assert_eq!(part.indices[0..3], part.indices[3..6]);
    assert_eq!(part.material.diffuse_map.as_deref(), Some("red.png"));
    assert!(part.material.lighting);
    assert_eq!(part.material.alpha, b(0.25));
}

#[test]
fn mesh_errors_come_in_order() {
    let no_lib = obj_set_from_text("o cube\nv 0 0 0\n").unwrap();
    assert_eq!(meshes_from_text(&no_lib, CUBE_MTL).err(), Some(AssetError::MissingMaterialLibrary));
    let set = obj_set_from_text(CUBE_OBJ).unwrap();
    assert_eq!(meshes_from_text(&set, "not a material").err(), Some(AssetError::BadMaterialSet));
    let mut out_of_range = set.clone();
    out_of_range.objects[0].geometry[0].shapes.push(Primitive::Point((7, Some(0), Some(0))));
    assert!(!object_indices_in_range(&out_of_range.objects[0]));
    assert_eq!(meshes_from_text(&out_of_range, CUBE_MTL).err(), Some(AssetError::IndexOutOfRange));
}

#[test]
fn chunk_checks() {
    assert!(vertex_chunks_whole(6, 6, 4));
    assert!(!vertex_chunks_whole(7, 9, 6));
    assert!(vertex_chunks_whole(0, 0, 0));
}

#[test]
fn huge_negative_indices_are_refused_before_the_parser() {
    let text = "o a\nv 0 0 0\nf -9223372036854775808\n";
    assert!(!obj_text_is_safe(text));
    assert!(obj_set_from_text(text).is_none());
    assert!(!obj_text_is_safe("o a\nv 0 0 0\nf 1/-123456789/1\n"));
    // Eight digits are fine (the parser reports the index as out of range).
    assert!(obj_text_is_safe("o a\nv 0 0 0\nf -12345678\n"));
    assert!(obj_set_from_text("o a\nv 0 0 0\nf -12345678\n").is_none());
    // A long negative coordinate is no index.
    assert!(obj_text_is_safe("o a\nv -1234567890.5 0 0\n"));
    let set = obj_set_from_text("o a\nv -1234567890.5 0 0\n").expect("the text parses");
    assert_eq!(set.objects[0].vertices[0][0], (-1234567890.5f32).to_bits());
}

#[test]
fn parsed_parts_are_assembled_and_rounded() {
    let structure = ObjStructure {
        material_library: Some("m.mtl".to_string()),
        objects: vec![(
            "thing".to_string(),
            vec![Geometry { material_name: None, shapes: vec![Primitive::Point((0, Some(0), Some(0)))] }],
        )],
    };
    let numbers = vec![(vec![[0.1f64.to_bits(), 2.0f64.to_bits(), 1e300f64.to_bits()]], vec![[0.5f64.to_bits(), 0.25f64.to_bits()]], vec![[1.0f64.to_bits(), 0u64, 0u64]])];
    let set = obj_set_from_parts(&structure, &numbers);
    assert_eq!(set.material_library.as_deref(), Some("m.mtl"));
    let o = &set.objects[0];
    assert_eq!(o.name, "thing");
    assert_eq!(o.vertices, vec![[b(0.1), b(2.0), b(f32::INFINITY)]]);
    assert_eq!(o.tex_vertices, vec![[b(0.5), b(0.25)]]);
    assert_eq!(o.normals, vec![[b(1.0), b(0.0), b(0.0)]]);
    assert_eq!(o.geometry[0].shapes.len(), 1);

    let parsed = vec![ParsedMaterial {
        name: "blue".to_string(),
        specular_coefficient: 0.0f64.to_bits(),
        color_ambient: Rgb::new(0u64, 0, 0),
        color_diffuse: Rgb::new(0u64, 0, 1.0f64.to_bits()),
        color_specular: Rgb::new(0u64, 0, 0),
        color_emissive: Some(Rgb::new(0.1f64.to_bits(), 0, 0)),
        alpha: 1.0f64.to_bits(),
        diffuse_map: None,
    }];
    let ms = materials_from_parsed(&parsed);
    assert_eq!(ms[0].name, "blue");
    assert_eq!(ms[0].color_diffuse.b, b(1.0));
    assert_eq!(ms[0].color_emissive.map(|c| c.r), Some(b(0.1)));
    assert_eq!(ms[0].specular_coefficient_f64, 0);
}
