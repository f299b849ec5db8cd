use engine::asset_loader;
use engine::assets;
use engine::assets::data::MaterialData;
use engine::assets::texture_map::{map_image, Rgba8Image};
use engine::float_bits::{f32_equal, f32_from_f64, f64_zero};
use engine::graphics::color::Rgb;
use engine::wavefront::{find_equal_vertex, vertex_equal, Geometry, Material, ObjSet, Object, Primitive, Vertex};

fn b(x: f32) -> u32 {
    x.to_bits()
}

fn object(shapes: Vec<Primitive>, material: Option<&str>) -> Object {
    Object {
        name: "cube".to_string(),
        vertices: vec![[b(0.0), b(0.0), b(0.0)], [b(1.0), b(0.0), b(0.0)], [b(0.0), b(1.0), b(0.0)], [b(-0.0), b(0.0), b(0.0)]],
        tex_vertices: vec![[b(0.0), b(0.0)], [b(1.0), b(1.0)]],
        normals: vec![[b(0.0), b(0.0), b(1.0)]],
        geometry: vec![Geometry { material_name: material.map(|m| m.to_string()), shapes }],
    }
}

fn red_material(name: &str) -> Material {
    Material {
        name: name.to_string(),
        specular_coefficient_f64: 0.5f64.to_bits(),
        specular_coefficient: b(0.5),
        color_ambient: Rgb::new(b(0.1), b(0.1), b(0.1)),
        color_diffuse: Rgb::new(b(1.0), b(0.0), b(0.0)),
        color_specular: Rgb::new(b(0.2), b(0.2), b(0.2)),
        color_emissive: None,
        alpha: b(1.0),
        diffuse_map: Some("red.png".to_string()),
    }
}

#[test]
fn float_equality_follows_ieee() {
    assert!(f32_equal(b(1.5), b(1.5)));
    assert!(f32_equal(b(0.0), b(-0.0)));
    assert!(!f32_equal(f32::NAN.to_bits(), f32::NAN.to_bits()));
    assert!(!f32_equal(b(1.0), b(2.0)));
    assert!(f64_zero(0.0f64.to_bits()));
    assert!(f64_zero((-0.0f64).to_bits()));
    assert!(!f64_zero(1e-300f64.to_bits()));
    assert!(!f64_zero(f64::NAN.to_bits()));
}

#[test]
fn shared_corners_share_a_vertex() {
    // Two triangles that share the corners (0, 0, 0) and (2, 1, 0).
    let shapes = vec![
        Primitive::Triangle((0, Some(0), Some(0)), (1, Some(0), Some(0)), (2, Some(1), Some(0))),
        Primitive::Triangle((2, Some(1), Some(0)), (1, Some(0), Some(0)), (0, Some(1), Some(0))),
    ];
    let set = vec![object(shapes, None)];
    let meshes = assets::build_obj_set(&set, &Vec::new());
    assert_eq!(meshes.len(), 1);
    let part = &meshes[0].parts[0];
    assert_eq!(part.indices, vec![0, 1, 2, 2, 1, 3]);
    assert_eq!(part.vertices.len(), 4);
}

#[test]
fn negative_zero_is_the_same_vertex() {
    // Position 3 is (-0, 0, 0): equal, as floats, to position 0.
    let shapes = vec![Primitive::Line((0, Some(0), Some(0)), (3, Some(0), Some(0)))];
    let set = vec![object(shapes, None)];
    let meshes = assets::build_obj_set(&set, &Vec::new());
    let part = &meshes[0].parts[0];
    assert_eq!(part.indices, vec![0, 0]);
    assert_eq!(part.vertices.len(), 1);
    assert_eq!(part.vertices[0].pos[0], b(0.0));
}

#[test]
fn nan_vertices_are_never_shared() {
    let mut obj = object(vec![Primitive::Point((0, Some(0), Some(0))), Primitive::Point((0, Some(0), Some(0)))], None);
    obj.vertices[0] = [f32::NAN.to_bits(), b(0.0), b(0.0)];
    let meshes = assets::build_obj_set(&vec![obj], &Vec::new());
    let part = &meshes[0].parts[0];
    assert_eq!(part.indices, vec![0, 1]);
    assert_eq!(part.vertices.len(), 2);
}

#[test]
fn corners_without_uv_or_normal_are_skipped() {
    let shapes = vec![Primitive::Triangle((0, None, Some(0)), (1, Some(0), None), (2, Some(1), Some(0)))];
    let meshes = assets::build_obj_set(&vec![object(shapes, None)], &Vec::new());
    let part = &meshes[0].parts[0];
    assert_eq!(part.indices, vec![0]);
    assert_eq!(part.vertices.len(), 1);
    assert_eq!(part.vertices[0].pos, [b(0.0), b(1.0), b(0.0)]);
    assert_eq!(part.vertices[0].uv, [b(1.0), b(1.0)]);
    assert_eq!(part.vertices[0].normal, [b(0.0), b(0.0), b(1.0)]);
}

#[test]
fn named_material_is_used() {
    let shapes = vec![Primitive::Point((0, Some(0), Some(0)))];
    let materials = vec![red_material("blue"), red_material("red"), red_material("red")];
    let meshes = assets::build_obj_set(&vec![object(shapes, Some("red"))], &materials);
    let m = &meshes[0].parts[0].material;
    assert_eq!(m.specular_coefficient, b(0.5));
    assert!(m.lighting);
    assert_eq!(m.color_diffuse.r, b(1.0));
    assert_eq!(m.color_emissive.r, 0);
    assert_eq!(m.diffuse_map, Some("red.png".to_string()));
}

#[test]
fn unknown_material_gives_the_default() {
    let shapes = vec![Primitive::Point((0, Some(0), Some(0)))];
    let meshes = assets::build_obj_set(&vec![object(shapes, Some("green"))], &vec![red_material("red")]);
    let m = &meshes[0].parts[0].material;
    assert_eq!(m.specular_coefficient, b(1.0));
    assert!(m.lighting);
    assert_eq!((m.color_diffuse.r, m.color_diffuse.g, m.color_diffuse.b), (b(1.0), b(0.0), b(1.0)));
    assert_eq!((m.color_ambient.r, m.color_ambient.g, m.color_ambient.b), (b(1.0), b(0.0), b(1.0)));
    assert_eq!(m.alpha, b(1.0));
    assert_eq!(m.diffuse_map, None);
}

#[test]
fn zero_specular_coefficient_turns_lighting_off() {
    let shapes = vec![Primitive::Point((0, Some(0), Some(0)))];
    let mut mat = red_material("red");
    mat.specular_coefficient_f64 = 0.0f64.to_bits();
    mat.specular_coefficient = b(0.0);
    mat.color_emissive = Some(Rgb::new(b(0.3), b(0.0), b(0.0)));
    let meshes = assets::build_obj_set(&vec![object(shapes, Some("red"))], &vec![mat]);
    let m = &meshes[0].parts[0].material;
    assert!(!m.lighting);
    assert_eq!(m.color_emissive.r, b(0.3));
}

#[test]
fn default_material_data_is_magenta() {
    let m: MaterialData<String> = MaterialData::default();
    assert_eq!(m.color_diffuse.r, b(1.0));
    assert_eq!(m.color_diffuse.g, b(0.0));
    assert_eq!(m.color_diffuse.b, b(1.0));
    assert_eq!(m.color_specular.r, b(0.0));
}

#[test]
fn first_generation_loader_uses_u16_indices_and_arrays() {
    let shapes = vec![
        Primitive::Triangle((0, Some(0), Some(0)), (1, Some(0), Some(0)), (0, Some(0), Some(0))),
    ];
    let meshes = asset_loader::build_obj_set(&vec![object(shapes.clone(), Some("red"))], &vec![red_material("red")]);
    let part = &meshes[0].parts[0];
    let expected: Vec<u16> = vec![0, 1, 0];
    assert_eq!(part.indices, expected);
    assert_eq!(part.material.color_diffuse, [b(1.0), b(0.0), b(0.0)]);
    assert_eq!(part.material.color_emissive, [0, 0, 0]);
    let checked = asset_loader::build_obj_set_checked(&vec![object(shapes.clone(), Some("red"))], &vec![red_material("red")])
        .expect("every index is in range");
    assert_eq!(checked[0].parts[0].indices, expected);
    let bad = vec![Primitive::Point((9, Some(0), Some(0)))];
    assert!(asset_loader::build_obj_set_checked(&vec![object(bad, None)], &vec![]).is_none());
}

#[test]
fn first_generation_default_material() {
    let m: asset_loader::data::MaterialData<String> = asset_loader::data::MaterialData::default();
    assert_eq!(m.color_ambient, [b(1.0), b(0.0), b(1.0)]);
    assert_eq!(m.color_diffuse, [b(0.0), b(0.0), b(0.0)]);
    assert_eq!(m.alpha, b(1.0));
}

#[test]
fn obj_set_needs_a_material_library() {
    let with = ObjSet { material_library: Some("cube.mtl".to_string()), objects: Vec::new() };
    let without = ObjSet { material_library: None, objects: Vec::new() };
    assert_eq!(assets::material_library(&with), Ok("cube.mtl".to_string()));
    assert_eq!(assets::material_library(&without), Err(assets::AssetError::MissingMaterialLibrary));
}

#[test]
fn find_equal_vertex_finds_the_first() {
    let v = |x: f32| Vertex { pos: [b(x), 0, 0], normal: [0, 0, 0], uv: [0, 0] };
    let vs = vec![v(1.0), v(2.0), v(2.0)];
    assert_eq!(find_equal_vertex(&vs, &v(2.0)), Some(1));
    assert_eq!(find_equal_vertex(&vs, &v(3.0)), None);
    assert!(vertex_equal(&v(0.0), &v(-0.0)));
}

#[test]
fn asset_loader_keeps_its_root() {
    let l = assets::AssetLoader::new("/game/assets".to_string());
    assert_eq!(l.root(), "/game/assets");
    let l = asset_loader::AssetLoader::new("assets".to_string());
    assert_eq!(l.root(), "assets");
}

#[test]
fn bit_pattern_equality_agrees_with_float_equality() {
    let values: Vec<f32> = vec![
        0.0, -0.0, 1.0, -1.0, 0.5, f32::MIN_POSITIVE, f32::MIN_POSITIVE / 2.0, f32::MAX, f32::MIN,
        f32::INFINITY, f32::NEG_INFINITY, f32::NAN, -f32::NAN, f32::from_bits(0x7fc0_0001), f32::from_bits(0xff80_0001),
        f32::from_bits(1), f32::from_bits(0x8000_0001), 3.25, -7.0e-30,
    ];
    for &x in &values {
        for &y in &values {
            assert_eq!(f32_equal(x.to_bits(), y.to_bits()), x == y, "{:?} == {:?}", x, y);
        }
    }
    let zeros: Vec<f64> = vec![0.0, -0.0, 1.0, f64::MIN_POSITIVE, f64::from_bits(1), f64::NAN, f64::INFINITY];
    for &z in &zeros {
        assert_eq!(f64_zero(z.to_bits()), z == 0.0);
    }
}

#[test]
fn diffuse_maps_are_turned_upside_down() {
    // Two columns, three rows; every byte tells its row and column.
    let mut pixels = Vec::new();
    for row in 0..3u8 {
        for col in 0..2u8 {
            pixels.extend_from_slice(&[row, col, 10 * row + col, 255]);
        }
    }
    let flipped = map_image(Rgba8Image { width: 2, height: 3, pixels: pixels.clone() });
    assert_eq!((flipped.width, flipped.height), (2, 3));
    let expected: Vec<u8> = vec![
        2, 0, 20, 255, 2, 1, 21, 255, //
        1, 0, 10, 255, 1, 1, 11, 255, //
        0, 0, 0, 255, 0, 1, 1, 255,
    ];
    assert_eq!(flipped.pixels, expected);
    let back = map_image(flipped);
    assert_eq!(back.pixels, pixels);
}

#[test]
fn empty_diffuse_map_stays_empty() {
    let img = map_image(Rgba8Image { width: 0, height: 4, pixels: vec![] });
    assert_eq!((img.width, img.height, img.pixels.len()), (0, 4, 0));
}

#[test]
fn rounding_to_single_precision_agrees_with_the_conversion() {
    let mut values: Vec<f64> = vec![
        0.0, -0.0, 1.0, -1.0, 0.1, 1.0e-40, -1.0e-45, 1.4e-45, 7.0e-46, 7.1e-46, 1.0e-50, 3.4028235e38,
        3.4028236e38, 3.5e38, 1.0e300, -1.0e300, f64::INFINITY, f64::NEG_INFINITY, f64::MIN_POSITIVE,
        f64::MAX, f64::MIN, 1.1754942e-38, 1.1754943e-38, 16777217.0, 16777219.0, 2.1,
        f64::from_bits(0x3ff0_0000_1000_0000), f64::from_bits(0x3ff0_0000_3000_0000),
        f64::from_bits(0x3ff0_0000_1000_0001), f64::from_bits(0x47ef_ffff_f000_0000),
    ];
    let mut seed: u64 = 0x1234_5678_9abc_def1;
    for _ in 0..200_000 {
        seed = seed.wrapping_mul(6364136223846793005).wrapping_add(1442695040888963407);
        values.push(f64::from_bits(seed));
        // Numbers near the single-precision range, where rounding does the most.
        let exp = 0x340 + (seed >> 40) % 0x100;
        values.push(f64::from_bits((seed & 0x800f_ffff_ffff_ffff) | (exp << 52)));
    }
    for x in values {
        let expected = x as f32;
        let got = f32::from_bits(f32_from_f64(x.to_bits()));
        if expected.is_nan() {
            assert!(got.is_nan(), "{:e}", x);
        } else {
            assert_eq!(got.to_bits(), expected.to_bits(), "{:e} ({:#x})", x, x.to_bits());
        }
    }
}
