use scene3d::math::{Scalar, Vec2, Vec3, Vert};
use scene3d::model::material::Material;
use scene3d::model::shape::Shape;
use scene3d::model::texture::Texture;
use scene3d::render::{Combiner, Primitive, RenderCommand, RenderContext};

fn shape_test_vert(x: f32, y: f32, u: f32, v: f32) -> Vert {
    Vert {
        pos: Vec3::new(
            Scalar::from_bits(x.to_bits()),
            Scalar::from_bits(y.to_bits()),
            Scalar::from_bits(0.0f32.to_bits()),
        ),
        tex: Vec2::new(Scalar::from_bits(u.to_bits()), Scalar::from_bits(v.to_bits())),
    }
}

fn shape_test_quad() -> [Vert; 4] {
    [
        shape_test_vert(-0.5, 0.5, 0.0, 1.0),
        shape_test_vert(-0.5, -0.5, 0.0, 0.0),
        shape_test_vert(0.5, -0.5, 1.0, 0.0),
        shape_test_vert(0.5, 0.5, 1.0, 1.0),
    ]
}

fn shape_test_textured(vertex_colours: bool, handle: u32) -> Material<u32> {
    let mut m = Material::new(Some(Texture::new(2, 2, vec![0u8; 16])), None, None, vertex_colours);
    m.attach_texture(Some(handle));
    m
}

#[test]
fn shape_new_copies_the_vertices() {
    let quad = shape_test_quad();
    let s: Shape<Vert, u32> = Shape::new(Material::default(), Primitive::TriangleFan, &quad);
    assert_eq!(s.vertices(), &quad[..]);
    assert_eq!(s.primitive(), Primitive::TriangleFan);
    assert_eq!(s.material().get_texture(), None);
}

#[test]
fn shape_without_vertices_draws_nothing_but_still_configures() {
    let s: Shape<Vert, u32> = Shape::new(Material::default(), Primitive::Triangles, &[]);
    let mut gpu = RenderContext::new();
    s.draw(&mut gpu);
    assert_eq!(gpu.len(), 4);
    assert_eq!(
        gpu.commands()[3],
        RenderCommand::DrawArrays { primitive: Primitive::Triangles, count: 0 }
    );
}

#[test]
fn untextured_shape_binds_no_texture_and_draws_by_primary_colour() {
    let quad = shape_test_quad();
    let s: Shape<Vert, u32> =
        Shape::new(Material::new(None, None, None, true), Primitive::TriangleFan, &quad);
    let mut gpu = RenderContext::new();
    s.draw(&mut gpu);
    assert_eq!(
        gpu.commands(),
        &vec![
            RenderCommand::ResetCombiner { stage: 0 },
            RenderCommand::SetCombiner { stage: 0, combiner: Combiner::replace_primary() },
            RenderCommand::UploadVertices { vertices: &quad[..] },
            RenderCommand::DrawArrays { primitive: Primitive::TriangleFan, count: 4 },
        ]
    );
    assert!(gpu.commands().iter().all(|c| !matches!(c, RenderCommand::BindTexture { .. })));
}

#[test]
fn untextured_shape_binds_nothing_even_if_a_handle_is_offered() {
    let quad = shape_test_quad();
    let mut s: Shape<Vert, u32> =
        Shape::new(Material::new(None, None, None, false), Primitive::Triangles, &quad);
    s.attach_texture(Some(9));
    let mut gpu = RenderContext::new();
    s.draw(&mut gpu);
    assert!(gpu.commands().iter().all(|c| !matches!(c, RenderCommand::BindTexture { .. })));
    assert_eq!(
        gpu.commands()[1],
        RenderCommand::SetCombiner { stage: 0, combiner: Combiner::replace_primary() }
    );
}

#[test]
fn textured_shape_with_vertex_colours_modulates() {
    let quad = shape_test_quad();
    let s = Shape::new(shape_test_textured(true, 11), Primitive::TriangleFan, &quad);
    let mut gpu = RenderContext::new();
    s.draw(&mut gpu);
    assert_eq!(
        gpu.commands(),
        &vec![
            RenderCommand::BindTexture { unit: 0, texture: &11 },
            RenderCommand::SetCombiner { stage: 0, combiner: Combiner::modulate() },
            RenderCommand::UploadVertices { vertices: &quad[..] },
            RenderCommand::DrawArrays { primitive: Primitive::TriangleFan, count: 4 },
        ]
    );
}

#[test]
fn textured_shape_without_vertex_colours_replaces() {
    let quad = shape_test_quad();
    let s = Shape::new(shape_test_textured(false, 12), Primitive::Triangles, &quad[..3]);
    let mut gpu = RenderContext::new();
    s.draw(&mut gpu);
    assert_eq!(
        gpu.commands(),
        &vec![
            RenderCommand::BindTexture { unit: 0, texture: &12 },
            RenderCommand::SetCombiner { stage: 0, combiner: Combiner::replace_texture() },
            RenderCommand::UploadVertices { vertices: &quad[..3] },
            RenderCommand::DrawArrays { primitive: Primitive::Triangles, count: 3 },
        ]
    );
}

#[test]
fn shape_whose_allocation_failed_draws_untextured() {
    let quad = shape_test_quad();
    let mut s: Shape<Vert, u32> = Shape::new(
        Material::new(Some(Texture::new(2, 2, vec![0u8; 16])), None, None, true),
        Primitive::Triangles,
        &quad,
    );
    s.attach_texture(None);
    let mut gpu = RenderContext::new();
    s.draw(&mut gpu);
    assert_eq!(gpu.commands()[0], RenderCommand::ResetCombiner { stage: 0 });
    assert_eq!(
        gpu.commands()[1],
        RenderCommand::SetCombiner { stage: 0, combiner: Combiner::replace_primary() }
    );
}

#[test]
fn consecutive_shapes_each_configure_the_combiner() {
    let quad = shape_test_quad();
    let textured = Shape::new(shape_test_textured(true, 1), Primitive::TriangleFan, &quad);
    let plain: Shape<Vert, u32> =
        Shape::new(Material::new(None, None, None, true), Primitive::TriangleFan, &quad);
    let mut gpu = RenderContext::new();
    textured.draw(&mut gpu);
    plain.draw(&mut gpu);
    textured.draw(&mut gpu);
    assert_eq!(gpu.len(), 12);
    let wanted = [Combiner::modulate(), Combiner::replace_primary(), Combiner::modulate()];
    for i in 0..3 {
        assert_eq!(
            gpu.commands()[4 * i + 1],
            RenderCommand::SetCombiner { stage: 0, combiner: wanted[i] }
        );
        assert!(matches!(gpu.commands()[4 * i + 3], RenderCommand::DrawArrays { .. }));
    }
}

#[test]
fn drawing_appends_to_what_was_recorded_before() {
    let quad = shape_test_quad();
    let s: Shape<Vert, u32> = Shape::new(Material::default(), Primitive::Triangles, &quad);
    let mut gpu = RenderContext::new();
    gpu.push(RenderCommand::ResetCombiner { stage: 3 });
    s.draw(&mut gpu);
    assert_eq!(gpu.len(), 5);
    assert_eq!(gpu.commands()[0], RenderCommand::ResetCombiner { stage: 3 });
}
