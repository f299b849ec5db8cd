use engine::graphics::mesh_pass::pipeline::{fragment_shader_path, vertex_shader_path};
use engine::asset_loader::obj::{Error, ModelsWithMaterials};
use engine::assets::data::MaterialData;
use engine::assets::scene::{parent_entity, scene_positions, SceneError};
use engine::graphics::bitmap_font::{glyph_origins, layout_fits_check, BitmapFontOptions};
use engine::graphics::buffer::{BufferType, BufferTypeArray, BufferTypeElementArray};
use engine::graphics::color::{Rgb, Rgba};
use engine::graphics::debug::DebugLines;
use engine::graphics::mesh;
use engine::graphics::mesh_pass::material::{material_layout, MaterialError, MaterialLayout, MaterialShading};
use engine::graphics::mesh_pass::render_mesh::{emissive_color, part_factors, part_shading};
use engine::graphics::mesh_pass::shadow_pass::reserve_light_layer;
use engine::graphics::model::{chunk_triples, diffuse_texture_path, first_model_with_material, triangle_indices, zip_vertex_chunks};
use engine::graphics::setup::{backend_from_lowercase, backend_from_name, Backend};
use engine::graphics::shader::{program_resource_names, shader_kind, uniform_location, whitespace_buffer, ShaderError, ShaderKind};

fn b(x: f32) -> u32 {
    x.to_bits()
}

fn material(lighting: bool, textured: bool, emissive: [f32; 3]) -> MaterialData<String> {
    let mut m: MaterialData<String> = MaterialData::default();
    m.lighting = lighting;
    m.diffuse_map = if textured { Some("t.png".to_string()) } else { None };
    m.color_emissive = Rgb::new(b(emissive[0]), b(emissive[1]), b(emissive[2]));
    m
}

#[test]
fn colors_convert_to_and_from_arrays() {
    let c = Rgb::new(1u8, 2, 3);
    let a: [u8; 3] = c.into();
    assert_eq!(a, [1, 2, 3]);
    let d = Rgb::from([4u8, 5, 6]);
    assert_eq!((d.r, d.g, d.b), (4, 5, 6));
    let e = c.alpha(9);
    let ea: [u8; 4] = e.into();
    assert_eq!(ea, [1, 2, 3, 9]);
    let f = e.rgb();
    assert_eq!((f.r, f.g, f.b), (1, 2, 3));
    let g = Rgba::from([7u8, 8, 9, 10]);
    assert_eq!(g.a, 10);
    let h = Rgba::new(0.5f32, 0.25, 0.0, 1.0);
    assert_eq!(h.rgb().g, 0.25);
}

#[test]
fn shading_table() {
    assert_eq!(part_shading(&material(true, false, [0.0; 3])), MaterialShading::Untextured);
    assert_eq!(part_shading(&material(true, true, [0.0; 3])), MaterialShading::Textured);
    assert_eq!(part_shading(&material(false, false, [0.0; 3])), MaterialShading::UntexturedUnlit);
    assert_eq!(part_shading(&material(false, true, [0.0; 3])), MaterialShading::TexturedUnlit);
    assert_eq!(part_shading(&material(true, false, [0.0, 0.5, 0.0])), MaterialShading::UntexturedEmissive);
    assert_eq!(part_shading(&material(true, true, [0.0, 0.0, 2.0])), MaterialShading::TexturedEmissive);
    assert_eq!(part_shading(&material(true, false, [-0.0, 0.0, -0.0])), MaterialShading::Untextured);
}

#[test]
fn emissive_means_not_black() {
    assert!(!emissive_color(&Rgb::new(0, 0, 0)));
    assert!(!emissive_color(&Rgb::new(b(-0.0), 0, 0)));
    assert!(emissive_color(&Rgb::new(b(0.1), 0, 0)));
    assert!(emissive_color(&Rgb::new(f32::NAN.to_bits(), 0, 0)));
}

#[test]
fn shading_predicates() {
    assert!(MaterialShading::TexturedUnlit._is_lit());
    assert!(MaterialShading::UntexturedUnlit._is_lit());
    assert!(!MaterialShading::Textured._is_lit());
    assert!(MaterialShading::TexturedEmissive.is_textured());
    assert!(!MaterialShading::UntexturedEmissive.is_textured());
    assert!(MaterialShading::UntexturedEmissive._is_emissive());
    assert!(!MaterialShading::Untextured._is_emissive());
}

#[test]
fn factors_carry_diffuse_with_alpha_and_emissive() {
    let mut m = material(true, false, [0.1, 0.2, 0.3]);
    m.alpha = b(0.5);
    let f = part_factors(&m);
    assert_eq!(f.diffuse, [b(1.0), b(0.0), b(1.0), b(0.5)]);
    assert_eq!(f.emissive, [b(0.1), b(0.2), b(0.3)]);
}

#[test]
fn textured_materials_need_a_texture() {
    assert_eq!(material_layout(&MaterialShading::Textured, true), Ok(MaterialLayout::Textured));
    assert_eq!(material_layout(&MaterialShading::TexturedUnlit, false), Err(MaterialError::MissingTexture));
    assert_eq!(material_layout(&MaterialShading::UntexturedUnlit, false), Ok(MaterialLayout::Untextured));
    assert_eq!(mesh::material_layout(&mesh::MaterialShading::UntexturedEmissive, true), Ok(MaterialLayout::Untextured));
    assert_eq!(mesh::material_layout(&mesh::MaterialShading::TexturedEmissive, false), Err(MaterialError::MissingTexture));
    assert_eq!(mesh::material_layout(&mesh::MaterialShading::Textured, true), Ok(MaterialLayout::Textured));
}

#[test]
fn glyph_grid_of_a_small_font() {
    // 8x8 glyphs with a 1 pixel border on a 36x18 image: 4 across, 2 down.
    let o = BitmapFontOptions::new(8, 8, 1, "font.png", "font");
    assert_eq!(o.glyph_width, 8);
    assert_eq!(o.image_path, "font.png");
    assert!(layout_fits_check(&o, 36, 18));
    let g = glyph_origins(&o, 36, 18);
    assert_eq!(g, vec![(1, 1), (10, 1), (19, 1), (28, 10), (1, 10), (10, 10), (19, 10)]);
}

#[test]
fn glyph_grid_edge_cases() {
    let o = BitmapFontOptions::new(8, 8, 1, "font.png", "font");
    assert!(layout_fits_check(&o, 5, 5));
    assert!(glyph_origins(&o, 5, 5).is_empty());
    let zero = BitmapFontOptions::new(0, 8, 0, "font.png", "font");
    assert!(!layout_fits_check(&zero, 36, 18));
    let huge = BitmapFontOptions::new(u32::MAX, 1, 1, "font.png", "font");
    assert!(!layout_fits_check(&huge, 36, 18));
    let wide = BitmapFontOptions::new(1 << 31, 1, 0, "font.png", "font");
    assert!(!layout_fits_check(&wide, u32::MAX, 4));
}

#[test]
fn shader_kinds_from_names() {
    assert_eq!(shader_kind("mesh.vert"), Ok(ShaderKind::Vertex));
    assert_eq!(shader_kind("mesh.frag"), Ok(ShaderKind::Fragment));
    assert_eq!(
        shader_kind("mesh.glsl"),
        Err(ShaderError::CanNotDetermineShaderTypeForResource { name: "mesh.glsl".to_string() })
    );
    assert_eq!(program_resource_names("shaders/mesh"), vec!["shaders/mesh.vert".to_string(), "shaders/mesh.frag".to_string()]);
}

#[test]
fn info_log_buffer_is_spaces() {
    assert_eq!(whitespace_buffer(3), vec![b' ', b' ', b' ']);
    assert!(whitespace_buffer(0).is_empty());
}

#[test]
fn uniform_locations() {
    assert_eq!(uniform_location(-1), None);
    assert_eq!(uniform_location(0), Some(0));
    assert_eq!(uniform_location(5), Some(5));
}

#[test]
fn backend_names() {
    assert_eq!(backend_from_lowercase("vulkan"), Some(Backend::Vulkan));
    assert_eq!(backend_from_lowercase("Vulkan"), None);
    assert_eq!(backend_from_name("VULKAN"), Some(Backend::Vulkan));
    assert_eq!(backend_from_name("Metal"), Some(Backend::Metal));
    assert_eq!(backend_from_name("dx12"), Some(Backend::Dx12));
    assert_eq!(backend_from_name("DX11"), Some(Backend::Dx11));
    assert_eq!(backend_from_name("gl"), Some(Backend::Gl));
    assert_eq!(backend_from_name("WebGPU"), Some(Backend::BrowserWebGpu));
    assert_eq!(backend_from_name("opengl"), None);
}

#[test]
fn model_texture_and_mesh_choice() {
    assert_eq!(diffuse_texture_path("models", Some("wood.png")), Some("models/wood.png".to_string()));
    assert_eq!(diffuse_texture_path("models", Some("")), None);
    assert_eq!(diffuse_texture_path("models", None), None);
    assert_eq!(first_model_with_material(&vec![None, Some(1), Some(0), Some(0)], true), Some(2));
    assert_eq!(first_model_with_material(&vec![Some(1), None], false), Some(1));
    assert_eq!(first_model_with_material(&vec![Some(1)], true), None);
}

#[test]
fn mesh_lists_cut_into_chunks() {
    assert_eq!(triangle_indices(&vec![0, 1, 2, 2, 3, 0]), vec![[0usize, 1, 2], [2, 3, 0]]);
    assert_eq!(chunk_triples(&vec![0.5f32, 1.0, 2.0]), vec![[0.5f32, 1.0, 2.0]]);
    let z = zip_vertex_chunks(&vec![1, 2, 3, 4, 5, 6], &vec![7, 8, 9], &vec![10, 11, 12, 13]);
    assert_eq!(z, vec![([1, 2, 3], [7, 8, 9], [10, 11])]);
    let short = zip_vertex_chunks(&vec![1, 2, 3, 4], &vec![7, 8, 9], &vec![10, 11]);
    assert_eq!(short.len(), 1);
}

#[test]
fn debug_lines_collect_segments() {
    let mut d = DebugLines::default();
    assert_eq!(d.thickness, b(1.0));
    let red = Rgba::new(b(1.0), 0, 0, b(1.0));
    let blue = Rgba::new(0, 0, b(1.0), b(1.0));
    d.push_line([0, 0, 0], [b(10.0), 0, 0], red);
    d.push_line_gradient([0, 0, 0], [0, b(10.0), 0], red, blue);
    assert_eq!(d.vec.len(), 2);
    assert_eq!(d.vec[0].color_a, d.vec[0].color_b);
    assert_eq!(d.vec[1].color_b, [0, 0, b(1.0), b(1.0)]);
    assert_eq!(d.vec[1].pos_b, [0, b(10.0), 0]);
    let fresh = DebugLines::new();
    assert!(fresh.vec.is_empty());
}

#[test]
fn buffer_targets() {
    assert_eq!(BufferTypeArray::BUFFER_TYPE, 0x8892);
    assert_eq!(BufferTypeElementArray::BUFFER_TYPE, 0x8893);
}

#[test]
fn lights_take_consecutive_layers() {
    let mut count = 0usize;
    assert_eq!(reserve_light_layer(&mut count), 1);
    assert_eq!(reserve_light_layer(&mut count), 2);
    assert_eq!(count, 2);
}

#[test]
fn scene_roots_load_before_children() {
    let parents = vec![None, Some(0), None, Some(2)];
    assert_eq!(scene_positions(&parents, false), vec![0, 2]);
    assert_eq!(scene_positions(&parents, true), vec![1, 3]);
    let recorded = vec![(0usize, 'a'), (0, 'b'), (2, 'c')];
    assert_eq!(parent_entity(&recorded, 0), Ok('a'));
    assert_eq!(parent_entity(&recorded, 2), Ok('c'));
    assert_eq!(parent_entity(&recorded, 1), Err(SceneError::IncorrectParentIndex));
}

#[test]
fn obj_paths_must_be_absolute() {
    let r: Result<ModelsWithMaterials<u8, u8>, Error<String>> =
        ModelsWithMaterials::load_checked("model.obj", false, || Ok((vec![1], vec![2])));
    match r {
        Err(Error::ObjPathMustBeAbsolute { path }) => assert_eq!(path, "model.obj"),
        _ => panic!("expected the path to be refused"),
    }
    let ok: Result<ModelsWithMaterials<u8, u8>, Error<String>> =
        ModelsWithMaterials::load_checked("/m.obj", true, || Ok((vec![1], vec![2, 3])));
    let ok = ok.unwrap_or_else(|_| panic!("expected models"));
    assert_eq!(ok.models, vec![1]);
    assert_eq!(ok.materials, vec![2, 3]);
    let err: Result<ModelsWithMaterials<u8, u8>, Error<String>> =
        ModelsWithMaterials::load_checked("/m.obj", true, || Err("missing".to_string()));
    assert!(matches!(err, Err(Error::LoadError(e)) if e == "missing"));
    let rel: Result<ModelsWithMaterials<u8, u8>, Error<String>> =
        ModelsWithMaterials::load("relative/m.obj", || Ok((vec![], vec![])));
    assert!(matches!(rel, Err(Error::ObjPathMustBeAbsolute { .. })));
    let abs: Result<ModelsWithMaterials<u8, u8>, Error<String>> =
        ModelsWithMaterials::load("/abs/m.obj", || Ok((vec![4], vec![])));
    assert!(matches!(abs, Ok(m) if m.models == vec![4]));
    let empty: Result<ModelsWithMaterials<u8, u8>, Error<String>> =
        ModelsWithMaterials::load("", || Ok((vec![5], vec![])));
    assert!(matches!(empty, Err(Error::ObjPathMustBeAbsolute { path }) if path.is_empty()));
    for rel in ["models/a.obj", "a.obj", "./a.obj", "..\\a.obj"] {
        let r: Result<ModelsWithMaterials<u8, u8>, Error<String>> = ModelsWithMaterials::load(rel, || Ok((vec![6], vec![])));
        assert!(matches!(r, Err(Error::ObjPathMustBeAbsolute { path }) if path == rel));
    }
}

#[test]
fn each_shading_loads_its_fragment_shader() {
    assert_eq!(vertex_shader_path(), "shaders/compiled/mesh.vert.spv");
    assert_eq!(fragment_shader_path(MaterialShading::Untextured), "shaders/compiled/untex.frag.spv");
    assert_eq!(fragment_shader_path(MaterialShading::UntexturedUnlit), "shaders/compiled/untex_unlit.frag.spv");
    assert_eq!(fragment_shader_path(MaterialShading::Textured), "shaders/compiled/tex.frag.spv");
    assert_eq!(fragment_shader_path(MaterialShading::TexturedUnlit), "shaders/compiled/tex_unlit.frag.spv");
    assert_eq!(fragment_shader_path(MaterialShading::UntexturedEmissive), "shaders/compiled/emissive_untex.frag.spv");
    assert_eq!(fragment_shader_path(MaterialShading::TexturedEmissive), "shaders/compiled/emissive.frag.spv");
}
