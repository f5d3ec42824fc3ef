//! The scene graph: a model owns shapes, a shape owns a material, a material
//! owns a texture.

use vstd::prelude::*;
use crate::math::Vec3;
use crate::model::shape::{
    lemma_shape_draw_layout, lemma_shape_draw_state, shape_views, Shape, ShapeView,
};
use crate::render::{
    lemma_replay_reads_prefix, lemma_replay_split, CommandView, DeviceState, RenderCommand,
    RenderContext, TransformStep, Uniforms, COMBINER_STAGE, TEXTURE_UNIT,
};

pub mod colour;
pub mod material;
pub mod shape;
pub mod texture;

verus! {

/// What a [`Model`] holds, as contracts speak of it.
#[verifier::ext_equal]
pub struct ModelView<T, H> {
    pub pos: Vec3,
    /// Euler angles, in radians.
    pub rot: Vec3,
    pub scale: Vec3,
    pub shapes: Seq<ShapeView<T, H>>,
}

impl<T, H> ModelView<T, H> {
    /// The world transform, as the steps that build it from the identity:
    /// scale, rotate about X by the negated `rot.y`, rotate about Y by
    /// `rot.x`, rotate about Z by `rot.z`, translate by `pos`. The first two
    /// angles trade places on purpose.
    pub open spec fn world_transform(self) -> Seq<TransformStep> {
        seq![
            TransformStep::Scale(self.scale),
            TransformStep::RotateX(self.rot.y.negated()),
            TransformStep::RotateY(self.rot.x),
            TransformStep::RotateZ(self.rot.z),
            TransformStep::Translate(self.pos),
        ]
    }

    /// The draw commands of the first `n` shapes, in list order.
    pub open spec fn shapes_commands(shapes: Seq<ShapeView<T, H>>, n: int) -> Seq<
        CommandView<T, H>,
    >
        decreases n,
    {
        if n <= 0 {
            Seq::empty()
        } else {
            Self::shapes_commands(shapes, n - 1) + shapes[n - 1].draw_commands()
        }
    }

    /// The commands that draw the model: bind the world transform to the
    /// model-matrix slot, then draw every shape in list order.
    pub open spec fn draw_commands(self, uniforms: Uniforms) -> Seq<CommandView<T, H>> {
        seq![
            CommandView::BindMatrix { index: uniforms.model_matrix, steps: self.world_transform() },
        ] + Self::shapes_commands(self.shapes, self.shapes.len() as int)
    }

    /// The model after the backend answered the upload request of the shape
    /// at `shape`. An index past the last shape changes nothing.
    pub open spec fn attached(self, shape: int, allocated: Option<H>) -> ModelView<T, H> {
        if 0 <= shape < self.shapes.len() {
            ModelView {
                shapes: self.shapes.update(shape, self.shapes[shape].attached(allocated)),
                ..self
            }
        } else {
            self
        }
    }
}

/// A placed group of shapes. Position, rotation and scale are open to the
/// caller; the shapes belong to the model alone.
#[derive(Debug)]
pub struct Model<T, H> {
    pub pos: Vec3,
    pub rot: Vec3,
    pub scale: Vec3,
    shapes: Vec<Shape<T, H>>,
}

impl<T, H> View for Model<T, H> {
    type V = ModelView<T, H>;

    closed spec fn view(&self) -> ModelView<T, H> {
        ModelView {
            pos: self.pos,
            rot: self.rot,
            scale: self.scale,
            shapes: shape_views(self.shapes@),
        }
    }
}

/// The views of the models of a scene, in list order.
pub open spec fn model_views<T, H>(models: Seq<Model<T, H>>) -> Seq<ModelView<T, H>> {
    Seq::new(models.len(), |i: int| models[i]@)
}

impl<T: Copy, H> Model<T, H> {
    /// A model of the given shapes at unit scale.
    pub fn new(pos: Vec3, rot: Vec3, shapes: Vec<Shape<T, H>>) -> (m: Self)
        ensures
            m@ == (ModelView::<T, H> {
                pos,
                rot,
                scale: Vec3::one(),
                shapes: shape_views(shapes@),
            }),
    {
        Model { pos, rot, scale: Vec3::one(), shapes }
    }

    /// The shapes, in list order.
    pub fn shapes(&self) -> (shapes: &Vec<Shape<T, H>>)
        ensures
            shape_views(shapes@) == self@.shapes,
    {
        &self.shapes
    }

    /// Records the backend's answer to the upload request of the shape at
    /// `shape`. With an index past the last shape the handle is dropped.
    pub fn attach_texture(&mut self, shape: usize, allocated: Option<H>)
        ensures
            final(self)@ == old(self)@.attached(shape as int, allocated),
    {
        if shape < self.shapes.len() {
            self.shapes[shape].attach_texture(allocated);
            assert(self@.shapes =~= old(self)@.shapes.update(
                shape as int,
                old(self)@.shapes[shape as int].attached(allocated),
            ));
        }
    }

    /// The steps of the world transform.
    pub fn world_transform(&self) -> (steps: Vec<TransformStep>)
        ensures
            steps@ == self@.world_transform(),
    {
        let steps = vec![
            TransformStep::Scale(self.scale),
            TransformStep::RotateX(self.rot.y.negated()),
            TransformStep::RotateY(self.rot.x),
            TransformStep::RotateZ(self.rot.z),
            TransformStep::Translate(self.pos),
        ];
        steps
    }

    /// Records the commands that draw the model.
    pub fn draw<'a>(&'a self, gpu: &mut RenderContext<'a, T, H>, uniforms: &Uniforms)
        ensures
            final(gpu)@ == old(gpu)@ + self@.draw_commands(*uniforms),
    {
        let steps = self.world_transform();
        gpu.push(RenderCommand::BindMatrix { index: uniforms.model_matrix, steps });
        let ghost bound = gpu@;
        let mut i: usize = 0;
        while i < self.shapes.len()
            invariant
                i <= self.shapes.len(),
                self.shapes@.len() == self@.shapes.len(),
                gpu@ == bound + ModelView::shapes_commands(self@.shapes, i as int),
            decreases self.shapes.len() - i,
        {
            self.shapes[i].draw(gpu);
            i = i + 1;
        }
    }
}

proof fn lemma_shapes_commands_layout<T, H>(shapes: Seq<ShapeView<T, H>>, n: int)
    requires
        0 <= n <= shapes.len(),
    ensures
        ModelView::shapes_commands(shapes, n).len() == 4 * n,
        forall|i: int|
            0 <= i < n ==> ModelView::shapes_commands(shapes, n).subrange(4 * i, 4 * i + 4)
                == (#[trigger] shapes[i]).draw_commands(),
    decreases n,
{
    if n > 0 {
        lemma_shapes_commands_layout(shapes, n - 1);
        lemma_shape_draw_layout(shapes[n - 1]);
        let before = ModelView::shapes_commands(shapes, n - 1);
        let all = ModelView::shapes_commands(shapes, n);
        assert forall|i: int| 0 <= i < n implies all.subrange(4 * i, 4 * i + 4)
            == (#[trigger] shapes[i]).draw_commands() by {
            if i < n - 1 {
                assert(all.subrange(4 * i, 4 * i + 4) =~= before.subrange(4 * i, 4 * i + 4));
            } else {
                assert(all.subrange(4 * i, 4 * i + 4) =~= shapes[i].draw_commands());
            }
        }
    }
}

/// A model is drawn by binding its world transform to the model-matrix slot
/// once and then drawing its shapes in list order, each with its own four
/// commands. So every draw call comes after the configuration of the combiner
/// for the material of the shape that is drawn, with nothing of another shape
/// in between.
pub proof fn lemma_model_draw_layout<T, H>(m: ModelView<T, H>, uniforms: Uniforms)
    ensures
        m.draw_commands(uniforms).len() == 1 + 4 * m.shapes.len(),
        m.draw_commands(uniforms)[0] == (CommandView::<T, H>::BindMatrix {
            index: uniforms.model_matrix,
            steps: m.world_transform(),
        }),
        forall|i: int|
            0 <= i < m.shapes.len() ==> m.draw_commands(uniforms).subrange(1 + 4 * i, 5 + 4 * i)
                == (#[trigger] m.shapes[i]).draw_commands(),
        forall|i: int|
            0 <= i < m.shapes.len() ==> m.draw_commands(uniforms)[2 + 4 * i] == (CommandView::<
                T,
                H,
            >::SetCombiner {
                stage: COMBINER_STAGE,
                combiner: (#[trigger] m.shapes[i]).material.combiner(),
            }),
        forall|i: int|
            0 <= i < m.shapes.len() ==> m.draw_commands(uniforms)[4 + 4 * i] == (CommandView::<
                T,
                H,
            >::DrawArrays {
                primitive: (#[trigger] m.shapes[i]).primitive,
                count: m.shapes[i].vertices.len(),
            }),
{
    let n = m.shapes.len() as int;
    let body = ModelView::shapes_commands(m.shapes, n);
    let all = m.draw_commands(uniforms);
    lemma_shapes_commands_layout(m.shapes, n);
    assert forall|i: int| 0 <= i < n implies all.subrange(1 + 4 * i, 5 + 4 * i)
        == (#[trigger] m.shapes[i]).draw_commands() by {
        assert(all.subrange(1 + 4 * i, 5 + 4 * i) =~= body.subrange(4 * i, 4 * i + 4));
    }
    assert forall|i: int| 0 <= i < n implies all[2 + 4 * i] == (CommandView::<T, H>::SetCombiner {
        stage: COMBINER_STAGE,
        combiner: (#[trigger] m.shapes[i]).material.combiner(),
    }) && all[4 + 4 * i] == (CommandView::<T, H>::DrawArrays {
        primitive: m.shapes[i].primitive,
        count: m.shapes[i].vertices.len(),
    }) by {
        lemma_shape_draw_layout(m.shapes[i]);
        let part = all.subrange(1 + 4 * i, 5 + 4 * i);
        assert(part == m.shapes[i].draw_commands());
        assert(part[1] == all[2 + 4 * i]);
        assert(part[3] == all[4 + 4 * i]);
    }
}

/// A model binds no texture but the GPU textures that its shapes hold: a
/// bind stands only at the head of the commands of a shape, and it binds the
/// GPU texture of that shape's material to the texture unit. A model whose
/// materials hold no GPU texture binds nothing.
pub proof fn lemma_model_binds_only_held_textures<T, H>(
    m: ModelView<T, H>,
    uniforms: Uniforms,
    k: int,
)
    requires
        0 <= k < m.draw_commands(uniforms).len(),
        m.draw_commands(uniforms)[k] is BindTexture,
    ensures
        k >= 1,
        (k - 1) % 4 == 0,
        0 <= (k - 1) / 4 < m.shapes.len(),
        m.draw_commands(uniforms)[k] == (CommandView::<T, H>::BindTexture {
            unit: TEXTURE_UNIT,
            texture: m.shapes[(k - 1) / 4].material.gpu_texture->0,
        }),
        m.shapes[(k - 1) / 4].material.gpu_texture is Some,
{
    lemma_model_draw_layout(m, uniforms);
    let all = m.draw_commands(uniforms);
    let i = (k - 1) / 4;
    let r = (k - 1) % 4;
    lemma_shape_draw_layout(m.shapes[i]);
    let part = all.subrange(1 + 4 * i, 5 + 4 * i);
    assert(part == m.shapes[i].draw_commands());
    assert(part[r] == all[k]);
}

proof fn lemma_model_command_at<T, H>(m: ModelView<T, H>, uniforms: Uniforms, j: int)
    requires
        1 <= j < m.draw_commands(uniforms).len(),
    ensures
        0 <= (j - 1) / 4 < m.shapes.len(),
        m.draw_commands(uniforms)[j] == m.shapes[(j - 1) / 4].draw_commands()[(j - 1) % 4],
{
    lemma_model_draw_layout(m, uniforms);
    let i = (j - 1) / 4;
    let part = m.draw_commands(uniforms).subrange(1 + 4 * i, 5 + 4 * i);
    assert(part == m.shapes[i].draw_commands());
    assert(part[(j - 1) % 4] == m.draw_commands(uniforms)[j]);
}

proof fn lemma_replay_keeps_matrices<T, H>(
    state: DeviceState<T, H>,
    commands: Seq<CommandView<T, H>>,
    from: int,
    n: int,
)
    requires
        0 <= from <= n <= commands.len(),
        forall|j: int| from <= j < n ==> !(#[trigger] commands[j] is BindMatrix),
    ensures
        state.replay(commands, n).matrices == state.replay(commands, from).matrices,
    decreases n - from,
{
    if from < n {
        lemma_replay_keeps_matrices(state, commands, from, n - 1);
    }
}

/// What a draw call reads depends on the model and the shape alone. Whatever
/// the context held before the model was drawn, and whichever shapes were
/// drawn before this one, at the draw call of the shape at `i` the matrix in
/// the model-matrix slot is the model's world transform, the combiner is
/// configured for that shape's material, the vertex buffer holds that shape's
/// vertices, and, where the combiner reads the texture, the texture bound is
/// the GPU texture of that shape's material. No shape draws with what
/// another left behind.
pub proof fn lemma_model_draw_state<T, H>(
    before: DeviceState<T, H>,
    m: ModelView<T, H>,
    uniforms: Uniforms,
    i: int,
)
    requires
        0 <= i < m.shapes.len(),
    ensures
        ({
            let commands = m.draw_commands(uniforms);
            let at_draw = before.replay(commands, 4 + 4 * i);
            &&& commands[4 + 4 * i] is DrawArrays
            &&& at_draw.matrices.dom().contains(uniforms.model_matrix)
            &&& at_draw.matrices[uniforms.model_matrix] == m.world_transform()
            &&& at_draw.combiner == Some(m.shapes[i].material.combiner())
            &&& at_draw.vertices == m.shapes[i].vertices
            &&& at_draw.combiner->0.samples_texture() ==> at_draw.texture
                == m.shapes[i].material.gpu_texture
        }),
{
    let commands = m.draw_commands(uniforms);
    let shape_commands = m.shapes[i].draw_commands();
    lemma_model_draw_layout(m, uniforms);
    lemma_shape_draw_layout(m.shapes[i]);
    let bound = before.replay(commands, 1);
    assert(bound == before.step(commands[0])) by {
        reveal_with_fuel(DeviceState::replay, 2);
    }
    let entry = before.replay(commands, 1 + 4 * i);
    assert(entry.matrices == bound.matrices) by {
        assert forall|j: int| 1 <= j < 1 + 4 * i implies !(#[trigger] commands[j]
            is BindMatrix) by {
            lemma_model_command_at(m, uniforms, j);
            lemma_shape_draw_layout(m.shapes[(j - 1) / 4]);
        }
        lemma_replay_keeps_matrices(before, commands, 1, 1 + 4 * i);
    }
    let rest = commands.subrange(1 + 4 * i, commands.len() as int);
    lemma_replay_split(before, commands, 1 + 4 * i, 3);
    assert forall|j: int| 0 <= j < 3 implies rest[j] == shape_commands[j] by {
        assert(commands.subrange(1 + 4 * i, 5 + 4 * i)[j] == rest[j]);
    }
    lemma_replay_reads_prefix(entry, rest, shape_commands, 3);
    lemma_shape_draw_state(entry, m.shapes[i]);
}

} // verus!
