use scene3d::model::colour::Colour;
use scene3d::model::material::{Material, TexParams, TextureFormat};
use scene3d::model::texture::Texture;
use scene3d::render::{
    Combiner, CombineFunc, CombineSource, RenderCommand, RenderContext, UniformIndex, Uniforms,
};

fn material_test_uniforms() -> Uniforms {
    Uniforms {
        model_matrix: UniformIndex(0),
        camera_matrix: UniformIndex(4),
        projection_matrix: UniformIndex(8),
        light_colour: UniformIndex(12),
        material_emission: UniformIndex(13),
        material_ambient: UniformIndex(14),
        material_diffuse: UniformIndex(15),
        material_specular: UniformIndex(16),
    }
}

#[test]
fn material_new_keeps_its_parts_and_holds_no_gpu_texture() {
    let m: Material<u32> = Material::new(
        Some(Texture::new(1, 1, vec![9, 8, 7, 6])),
        Some(Colour::new(1, 2, 3, 4)),
        Some(Colour::new(5, 6, 7, 8)),
        true,
    );
    assert!(m.use_vertex_colours());
    assert_eq!(m.texture().unwrap().data(), &vec![9, 8, 7, 6]);
    assert_eq!(m.colour(), Some(Colour::new(1, 2, 3, 4)));
    assert_eq!(m.ambient(), Some(Colour::new(5, 6, 7, 8)));
    assert_eq!(m.get_texture(), None);
}

#[test]
fn default_material_has_nothing_set() {
    let m: Material<u32> = Material::default();
    assert!(m.texture().is_none());
    assert_eq!(m.colour(), None);
    assert_eq!(m.ambient(), None);
    assert!(!m.use_vertex_colours());
    assert_eq!(m.get_texture(), None);
    assert_eq!(m.upload_request(), None);
}

#[test]
fn material_asks_for_an_rgba8_texture_of_the_source_size() {
    let m: Material<u32> = Material::new(Some(Texture::new(2, 3, vec![0u8; 24])), None, None, false);
    assert_eq!(
        m.upload_request(),
        Some(TexParams { width: 2, height: 3, format: TextureFormat::Rgba8 })
    );
}

#[test]
fn material_without_texture_asks_for_nothing() {
    let m: Material<u32> = Material::new(None, None, None, true);
    assert_eq!(m.upload_request(), None);
}

#[test]
fn material_with_ill_sized_texture_asks_for_nothing() {
    let short: Material<u32> = Material::new(Some(Texture::new(2, 3, vec![0u8; 23])), None, None, true);
    assert_eq!(short.upload_request(), None);
    let long: Material<u32> = Material::new(Some(Texture::new(2, 3, vec![0u8; 25])), None, None, true);
    assert_eq!(long.upload_request(), None);
}

#[test]
fn attach_texture_keeps_the_handle_that_was_asked_for() {
    let mut m: Material<u32> = Material::new(Some(Texture::new(1, 1, vec![0u8; 4])), None, None, true);
    m.attach_texture(Some(77));
    assert_eq!(m.get_texture(), Some(&77));
    assert!(m.use_vertex_colours());
    assert!(m.texture().is_some());
}

#[test]
fn attach_texture_drops_a_handle_nobody_asked_for() {
    let mut none: Material<u32> = Material::new(None, None, None, true);
    none.attach_texture(Some(77));
    assert_eq!(none.get_texture(), None);
    let mut bad: Material<u32> = Material::new(Some(Texture::new(2, 2, vec![0u8; 3])), None, None, true);
    bad.attach_texture(Some(78));
    assert_eq!(bad.get_texture(), None);
}

#[test]
fn failed_allocation_leaves_the_material_without_gpu_texture() {
    let mut m: Material<u32> = Material::new(Some(Texture::new(1, 1, vec![0u8; 4])), None, None, true);
    m.attach_texture(None);
    assert_eq!(m.get_texture(), None);
    assert_eq!(m.combiner(), Combiner::replace_primary());
    m.attach_texture(Some(5));
    assert_eq!(m.get_texture(), Some(&5));
    m.attach_texture(None);
    assert_eq!(m.get_texture(), None);
}

#[test]
fn combiner_modulates_texture_with_vertex_colours() {
    let mut m: Material<u32> = Material::new(Some(Texture::new(1, 1, vec![0u8; 4])), None, None, true);
    m.attach_texture(Some(1));
    let c = m.combiner();
    assert_eq!(c, Combiner::modulate());
    assert_eq!(c.source0, CombineSource::Texture0);
    assert_eq!(c.source1, Some(CombineSource::PrimaryColor));
    assert_eq!(c.func, CombineFunc::Modulate);
}

#[test]
fn combiner_replaces_with_texture_without_vertex_colours() {
    let mut m: Material<u32> = Material::new(Some(Texture::new(1, 1, vec![0u8; 4])), None, None, false);
    m.attach_texture(Some(1));
    let c = m.combiner();
    assert_eq!(c, Combiner::replace_texture());
    assert_eq!(c.source0, CombineSource::Texture0);
    assert_eq!(c.source1, None);
    assert_eq!(c.func, CombineFunc::Replace);
}

#[test]
fn combiner_replaces_with_primary_colour_without_gpu_texture() {
    for vertex_colours in [false, true] {
        let m: Material<u32> = Material::new(None, None, None, vertex_colours);
        let c = m.combiner();
        assert_eq!(c, Combiner::replace_primary());
        assert_eq!(c.source0, CombineSource::PrimaryColor);
        assert_eq!(c.source1, None);
        assert_eq!(c.func, CombineFunc::Replace);
    }
}

#[test]
fn apply_binds_the_texture_then_sets_the_combiner() {
    let mut m: Material<u32> = Material::new(Some(Texture::new(1, 1, vec![0u8; 4])), None, None, true);
    m.attach_texture(Some(42));
    let mut gpu: RenderContext<u8, u32> = RenderContext::new();
    m.apply(&mut gpu);
    assert_eq!(
        gpu.commands(),
        &vec![
            RenderCommand::BindTexture { unit: 0, texture: &42 },
            RenderCommand::SetCombiner { stage: 0, combiner: Combiner::modulate() },
        ]
    );
}

#[test]
fn apply_without_gpu_texture_resets_then_sets_the_combiner() {
    let m: Material<u32> = Material::new(None, None, None, true);
    let mut gpu: RenderContext<u8, u32> = RenderContext::new();
    m.apply(&mut gpu);
    assert_eq!(
        gpu.commands(),
        &vec![
            RenderCommand::ResetCombiner { stage: 0 },
            RenderCommand::SetCombiner { stage: 0, combiner: Combiner::replace_primary() },
        ]
    );
}

#[test]
fn set_uniforms_binds_ambient_then_emission() {
    let m: Material<u32> = Material::new(
        None,
        Some(Colour::new(255, 0, 255, 255)),
        Some(Colour::new(10, 20, 30, 40)),
        false,
    );
    let mut gpu: RenderContext<u8, u32> = RenderContext::new();
    m.set_uniforms(&mut gpu, &material_test_uniforms());
    assert_eq!(
        gpu.commands(),
        &vec![
            RenderCommand::BindColour { index: UniformIndex(14), colour: Colour::new(10, 20, 30, 40) },
            RenderCommand::BindColour { index: UniformIndex(13), colour: Colour::new(255, 0, 255, 255) },
        ]
    );
}

#[test]
fn set_uniforms_binds_transparent_black_for_unset_colours() {
    let m: Material<u32> = Material::new(None, None, None, false);
    let mut gpu: RenderContext<u8, u32> = RenderContext::new();
    m.set_uniforms(&mut gpu, &material_test_uniforms());
    assert_eq!(
        gpu.commands(),
        &vec![
            RenderCommand::BindColour { index: UniformIndex(14), colour: Colour::new(0, 0, 0, 0) },
            RenderCommand::BindColour { index: UniformIndex(13), colour: Colour::new(0, 0, 0, 0) },
        ]
    );
}
