//! The command list that drawing records into, and the values its commands
//! carry.
//!
//! A [`RenderContext`] stands for the GPU context of one frame. Drawing a
//! model appends [`RenderCommand`]s to it, in the order the device must see
//! them; the context does nothing else. The texture combiner is state of the
//! context, not of a material, so every shape records its own configuration
//! before its draw call.
//!
//! [`DeviceState`] says what the recorded commands mean: what the device
//! holds after each of them. The laws on drawing are stated over it.

use vstd::prelude::*;
use crate::math::{Scalar, Vec3};
use crate::model::colour::{Colour, Rgba};

verus! {

/// The texture unit that a material's texture is bound to.
pub const TEXTURE_UNIT: u8 = 0;

/// The combiner stage that a shape configures.
pub const COMBINER_STAGE: u8 = 0;

/// The slot of one shader uniform.
#[derive(Debug, Clone, Copy, PartialEq, Eq)]
pub struct UniformIndex(pub u8);

/// The uniform slots of the vertex shader.
#[derive(Debug, Clone, Copy, PartialEq, Eq)]
pub struct Uniforms {
    pub model_matrix: UniformIndex,
    pub camera_matrix: UniformIndex,
    pub projection_matrix: UniformIndex,
    pub light_colour: UniformIndex,
    pub material_emission: UniformIndex,
    pub material_ambient: UniformIndex,
    pub material_diffuse: UniformIndex,
    pub material_specular: UniformIndex,
}

/// How consecutive vertices form geometry.
#[derive(Debug, Clone, Copy, PartialEq, Eq)]
pub enum Primitive {
    Triangles,
    TriangleStrip,
    TriangleFan,
    GeometryPrim,
}

/// An input of the combiner.
#[derive(Debug, Clone, Copy, PartialEq, Eq)]
pub enum CombineSource {
    /// The colour that the vertex shader put out.
    PrimaryColor,
    /// The sample of the texture bound to unit 0.
    Texture0,
}

/// How the combiner joins its inputs.
#[derive(Debug, Clone, Copy, PartialEq, Eq)]
pub enum CombineFunc {
    /// The first input, unchanged.
    Replace,
    /// The product of the first and second input.
    Modulate,
}

/// One configuration of a combiner stage, for colour and alpha alike.
#[derive(Debug, Clone, Copy, PartialEq, Eq)]
pub struct Combiner {
    pub source0: CombineSource,
    pub source1: Option<CombineSource>,
    pub func: CombineFunc,
}

impl Combiner {
    /// Texture times vertex colour.
    pub open spec fn spec_modulate() -> Combiner {
        Combiner {
            source0: CombineSource::Texture0,
            source1: Some(CombineSource::PrimaryColor),
            func: CombineFunc::Modulate,
        }
    }

    /// The texture alone.
    pub open spec fn spec_replace_texture() -> Combiner {
        Combiner { source0: CombineSource::Texture0, source1: None, func: CombineFunc::Replace }
    }

    /// The vertex or uniform colour alone.
    pub open spec fn spec_replace_primary() -> Combiner {
        Combiner { source0: CombineSource::PrimaryColor, source1: None, func: CombineFunc::Replace }
    }

    /// Whether the configuration reads the texture.
    pub open spec fn samples_texture(self) -> bool {
        self.source0 == CombineSource::Texture0 || self.source1 == Some(CombineSource::Texture0)
    }

    #[verifier::when_used_as_spec(spec_modulate)]
    pub fn modulate() -> (c: Combiner)
        ensures
            c == Combiner::spec_modulate(),
    {
        Combiner {
            source0: CombineSource::Texture0,
            source1: Some(CombineSource::PrimaryColor),
            func: CombineFunc::Modulate,
        }
    }

    #[verifier::when_used_as_spec(spec_replace_texture)]
    pub fn replace_texture() -> (c: Combiner)
        ensures
            c == Combiner::spec_replace_texture(),
    {
        Combiner { source0: CombineSource::Texture0, source1: None, func: CombineFunc::Replace }
    }

    #[verifier::when_used_as_spec(spec_replace_primary)]
    pub fn replace_primary() -> (c: Combiner)
        ensures
            c == Combiner::spec_replace_primary(),
    {
        Combiner { source0: CombineSource::PrimaryColor, source1: None, func: CombineFunc::Replace }
    }
}

/// One step of a world transform. Angles are in radians.
#[derive(Debug, Clone, Copy, PartialEq, Eq)]
pub enum TransformStep {
    Scale(Vec3),
    RotateX(Scalar),
    RotateY(Scalar),
    RotateZ(Scalar),
    Translate(Vec3),
}

/// One operation of the render backend. `T` is the vertex type, `H` the
/// backend's handle of a texture that lives on the GPU.
#[derive(Debug, PartialEq, Eq)]
pub enum RenderCommand<'a, T, H> {
    /// Bind a texture to a texture unit.
    BindTexture { unit: u8, texture: &'a H },
    /// Put a combiner stage back to its initial configuration.
    ResetCombiner { stage: u8 },
    /// Configure a combiner stage.
    SetCombiner { stage: u8, combiner: Combiner },
    /// Make these vertices the current vertex buffer.
    UploadVertices { vertices: &'a [T] },
    /// Draw the first `count` vertices of the current vertex buffer, without
    /// an index buffer.
    DrawArrays { primitive: Primitive, count: usize },
    /// Build a matrix from the identity by applying the steps in order, and
    /// bind it to a uniform slot.
    BindMatrix { index: UniformIndex, steps: Vec<TransformStep> },
    /// Bind a colour to a uniform slot.
    BindColour { index: UniformIndex, colour: Colour },
}

/// What a [`RenderCommand`] says, as contracts speak of it.
#[verifier::ext_equal]
pub enum CommandView<T, H> {
    BindTexture { unit: u8, texture: H },
    ResetCombiner { stage: u8 },
    SetCombiner { stage: u8, combiner: Combiner },
    UploadVertices { vertices: Seq<T> },
    DrawArrays { primitive: Primitive, count: nat },
    BindMatrix { index: UniformIndex, steps: Seq<TransformStep> },
    BindColour { index: UniformIndex, colour: Rgba },
}

impl<'a, T, H> View for RenderCommand<'a, T, H> {
    type V = CommandView<T, H>;

    open spec fn view(&self) -> CommandView<T, H> {
        match *self {
            RenderCommand::BindTexture { unit, texture } => CommandView::BindTexture {
                unit,
                texture: *texture,
            },
            RenderCommand::ResetCombiner { stage } => CommandView::ResetCombiner { stage },
            RenderCommand::SetCombiner { stage, combiner } => CommandView::SetCombiner {
                stage,
                combiner,
            },
            RenderCommand::UploadVertices { vertices } => CommandView::UploadVertices {
                vertices: vertices@,
            },
            RenderCommand::DrawArrays { primitive, count } => CommandView::DrawArrays {
                primitive,
                count: count as nat,
            },
            RenderCommand::BindMatrix { index, steps } => CommandView::BindMatrix {
                index,
                steps: steps@,
            },
            RenderCommand::BindColour { index, colour } => CommandView::BindColour {
                index,
                colour: colour@,
            },
        }
    }
}

/// The views of a list of commands, in list order.
pub open spec fn command_views<'a, T, H>(commands: Seq<RenderCommand<'a, T, H>>) -> Seq<
    CommandView<T, H>,
> {
    Seq::new(commands.len(), |i: int| commands[i]@)
}

/// The commands of one frame, in the order they were recorded.
#[derive(Debug)]
pub struct RenderContext<'a, T, H> {
    commands: Vec<RenderCommand<'a, T, H>>,
}

impl<'a, T, H> View for RenderContext<'a, T, H> {
    type V = Seq<CommandView<T, H>>;

    closed spec fn view(&self) -> Seq<CommandView<T, H>> {
        command_views(self.commands@)
    }
}

impl<'a, T, H> RenderContext<'a, T, H> {
    /// A context with nothing recorded.
    pub fn new() -> (gpu: Self)
        ensures
            gpu@ == Seq::<CommandView<T, H>>::empty(),
    {
        RenderContext { commands: Vec::new() }
    }

    /// Records one command after all that were recorded before.
    pub fn push(&mut self, command: RenderCommand<'a, T, H>)
        ensures
            final(self)@ == old(self)@.push(command@),
    {
        self.commands.push(command);
    }

    /// The number of commands recorded.
    pub fn len(&self) -> (n: usize)
        ensures
            n == self@.len(),
    {
        self.commands.len()
    }

    /// The recorded commands, oldest first.
    pub fn commands(&self) -> (commands: &Vec<RenderCommand<'a, T, H>>)
        ensures
            command_views(commands@) == self@,
    {
        &self.commands
    }
}

/// What the device holds while commands are replayed, as far as a draw call
/// reads it. This state belongs to the context and outlives every shape: it
/// is whatever the last command that set it left behind.
#[verifier::ext_equal]
pub struct DeviceState<T, H> {
    /// The texture bound to the texture unit.
    pub texture: Option<H>,
    /// The configuration of the combiner stage; `None` is the one that a
    /// reset leaves.
    pub combiner: Option<Combiner>,
    /// The current vertex buffer.
    pub vertices: Seq<T>,
    /// The matrix bound to each uniform slot, as the steps that build it.
    pub matrices: Map<UniformIndex, Seq<TransformStep>>,
    /// The colour bound to each uniform slot.
    pub colours: Map<UniformIndex, Rgba>,
}

impl<T, H> DeviceState<T, H> {
    /// The state after one command. A draw call reads the state and leaves
    /// it as it is.
    pub open spec fn step(self, command: CommandView<T, H>) -> DeviceState<T, H> {
        match command {
            CommandView::BindTexture { unit, texture } => if unit == TEXTURE_UNIT {
                DeviceState { texture: Some(texture), ..self }
            } else {
                self
            },
            CommandView::ResetCombiner { stage } => if stage == COMBINER_STAGE {
                DeviceState { combiner: None, ..self }
            } else {
                self
            },
            CommandView::SetCombiner { stage, combiner } => if stage == COMBINER_STAGE {
                DeviceState { combiner: Some(combiner), ..self }
            } else {
                self
            },
            CommandView::UploadVertices { vertices } => DeviceState { vertices, ..self },
            CommandView::DrawArrays { .. } => self,
            CommandView::BindMatrix { index, steps } => DeviceState {
                matrices: self.matrices.insert(index, steps),
                ..self
            },
            CommandView::BindColour { index, colour } => DeviceState {
                colours: self.colours.insert(index, colour),
                ..self
            },
        }
    }

    /// The state after the first `n` of the commands.
    pub open spec fn replay(self, commands: Seq<CommandView<T, H>>, n: int) -> DeviceState<T, H>
        decreases n,
    {
        if n <= 0 {
            self
        } else {
            self.replay(commands, n - 1).step(commands[n - 1])
        }
    }
}

/// Replaying `n + k` commands is replaying `n` of them and then `k` of the
/// rest.
pub proof fn lemma_replay_split<T, H>(
    state: DeviceState<T, H>,
    commands: Seq<CommandView<T, H>>,
    n: int,
    k: int,
)
    requires
        0 <= n,
        0 <= k,
        n + k <= commands.len(),
    ensures
        state.replay(commands, n + k) == state.replay(commands, n).replay(
            commands.subrange(n, commands.len() as int),
            k,
        ),
    decreases k,
{
    if k > 0 {
        lemma_replay_split(state, commands, n, k - 1);
    }
}

/// The state after `n` commands depends on those `n` commands alone.
pub proof fn lemma_replay_reads_prefix<T, H>(
    state: DeviceState<T, H>,
    a: Seq<CommandView<T, H>>,
    b: Seq<CommandView<T, H>>,
    n: int,
)
    requires
        0 <= n <= a.len(),
        n <= b.len(),
        forall|j: int| 0 <= j < n ==> a[j] == b[j],
    ensures
        state.replay(a, n) == state.replay(b, n),
    decreases n,
{
    if n > 0 {
        lemma_replay_reads_prefix(state, a, b, n - 1);
    }
}

} // verus!
