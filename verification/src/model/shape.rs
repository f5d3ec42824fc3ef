//! Shapes: a vertex list of one primitive topology, drawn with one material.

use vstd::prelude::*;
use crate::model::material::{Material, MaterialView};
use crate::render::{
    Combiner, CommandView, DeviceState, Primitive, RenderCommand, RenderContext, COMBINER_STAGE,
    TEXTURE_UNIT,
};

verus! {

/// What a [`Shape`] holds, as contracts speak of it.
#[verifier::ext_equal]
pub struct ShapeView<T, H> {
    pub material: MaterialView<H>,
    pub primitive: Primitive,
    pub vertices: Seq<T>,
}

impl<T, H> ShapeView<T, H> {
    /// The shape after the backend answered its material's upload request.
    pub open spec fn attached(self, allocated: Option<H>) -> ShapeView<T, H> {
        ShapeView { material: self.material.attached(allocated), ..self }
    }

    /// The commands that draw the shape: prepare the context for the
    /// material, upload the vertices, and issue one draw call over all of
    /// them.
    pub open spec fn draw_commands(self) -> Seq<CommandView<T, H>> {
        self.material.apply_commands::<T>() + seq![
            CommandView::UploadVertices { vertices: self.vertices },
            CommandView::DrawArrays { primitive: self.primitive, count: self.vertices.len() },
        ]
    }
}

/// A drawable piece of a model.
#[derive(Debug)]
pub struct Shape<T, H> {
    mat: Material<H>,
    prim_type: Primitive,
    verts: Vec<T>,
}

impl<T, H> View for Shape<T, H> {
    type V = ShapeView<T, H>;

    closed spec fn view(&self) -> ShapeView<T, H> {
        ShapeView { material: self.mat@, primitive: self.prim_type, vertices: self.verts@ }
    }
}

/// The views of a list of shapes, in list order.
pub open spec fn shape_views<T, H>(shapes: Seq<Shape<T, H>>) -> Seq<ShapeView<T, H>> {
    Seq::new(shapes.len(), |i: int| shapes[i]@)
}

impl<T: Copy, H> Shape<T, H> {
    /// A shape with a copy of the given vertices.
    pub fn new(mat: Material<H>, prim_type: Primitive, verts: &[T]) -> (s: Self)
        ensures
            s@ == (ShapeView::<T, H> { material: mat@, primitive: prim_type, vertices: verts@ }),
    {
        let mut vertex_buffer: Vec<T> = Vec::with_capacity(verts.len());
        let mut i: usize = 0;
        while i < verts.len()
            invariant
                i <= verts.len(),
                vertex_buffer@ == verts@.take(i as int),
            decreases verts.len() - i,
        {
            vertex_buffer.push(verts[i]);
            i = i + 1;
        }
        Shape { mat, prim_type, verts: vertex_buffer }
    }

    /// The material that the shape is drawn with.
    pub fn material(&self) -> (m: &Material<H>)
        ensures
            m@ == self@.material,
    {
        &self.mat
    }

    /// How the vertices form geometry.
    pub fn primitive(&self) -> (p: Primitive)
        ensures
            p == self@.primitive,
    {
        self.prim_type
    }

    /// The vertices, in draw order.
    pub fn vertices(&self) -> (v: &[T])
        ensures
            v@ == self@.vertices,
    {
        self.verts.as_slice()
    }

    /// Records the backend's answer to the material's upload request.
    pub fn attach_texture(&mut self, allocated: Option<H>)
        ensures
            final(self)@ == old(self)@.attached(allocated),
    {
        self.mat.attach_texture(allocated);
    }

    /// Records the commands that draw the shape. The combiner is configured
    /// anew before the draw call, whatever the context held before.
    pub fn draw<'a>(&'a self, gpu: &mut RenderContext<'a, T, H>)
        ensures
            final(gpu)@ == old(gpu)@ + self@.draw_commands(),
            self@.material.well_formed(),
    {
        self.mat.apply(gpu);
        gpu.push(RenderCommand::UploadVertices { vertices: self.verts.as_slice() });
        gpu.push(RenderCommand::DrawArrays { primitive: self.prim_type, count: self.verts.len() });
    }
}

/// A shape is drawn with four commands: the texture bound or the combiner
/// reset, the combiner configured for the shape's own material, the vertices
/// uploaded, and one draw call over all of them.
pub proof fn lemma_shape_draw_layout<T, H>(s: ShapeView<T, H>)
    ensures
        s.draw_commands().len() == 4,
        s.draw_commands()[0] == match s.material.gpu_texture {
            Some(h) => CommandView::<T, H>::BindTexture { unit: TEXTURE_UNIT, texture: h },
            None => CommandView::<T, H>::ResetCombiner { stage: COMBINER_STAGE },
        },
        s.draw_commands()[1] == (CommandView::<T, H>::SetCombiner {
            stage: COMBINER_STAGE,
            combiner: s.material.combiner(),
        }),
        s.draw_commands()[2] == (CommandView::<T, H>::UploadVertices { vertices: s.vertices }),
        s.draw_commands()[3] == (CommandView::<T, H>::DrawArrays {
            primitive: s.primitive,
            count: s.vertices.len(),
        }),
{
}

/// Drawing a shape whose material was made without a source texture binds no
/// texture and selects the primary colour alone.
pub proof fn lemma_untextured_shape_binds_nothing<T, H>(s: ShapeView<T, H>)
    requires
        s.material.well_formed(),
        s.material.texture is None,
    ensures
        forall|i: int|
            0 <= i < s.draw_commands().len() ==> !(#[trigger] s.draw_commands()[i] is BindTexture),
        s.draw_commands()[1] == (CommandView::<T, H>::SetCombiner {
            stage: COMBINER_STAGE,
            combiner: Combiner::replace_primary(),
        }),
        !Combiner::replace_primary().samples_texture(),
{
    lemma_shape_draw_layout(s);
}

/// What a draw call reads depends on the shape alone. Whatever the context
/// held before, at the draw call of a shape the combiner is configured for
/// the shape's own material, the vertex buffer holds the shape's vertices,
/// and, where the combiner reads the texture, the texture bound is the GPU
/// texture of the shape's material. Matrices and colours are left as they
/// were.
pub proof fn lemma_shape_draw_state<T, H>(before: DeviceState<T, H>, s: ShapeView<T, H>)
    ensures
        ({
            let at_draw = before.replay(s.draw_commands(), 3);
            &&& s.draw_commands()[3] is DrawArrays
            &&& at_draw.combiner == Some(s.material.combiner())
            &&& at_draw.vertices == s.vertices
            &&& at_draw.combiner->0.samples_texture() ==> at_draw.texture
                == s.material.gpu_texture
            &&& at_draw.matrices == before.matrices
            &&& at_draw.colours == before.colours
            &&& before.replay(s.draw_commands(), 4) == at_draw
        }),
{
    lemma_shape_draw_layout(s);
    reveal_with_fuel(DeviceState::replay, 5);
}

} // verus!
