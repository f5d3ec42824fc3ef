//! Materials: what a shape is drawn with.
//!
//! A material owns its source texture and, once the backend has allocated
//! one, the handle of the GPU texture made from it. The library decides what
//! is asked of the backend ([`Material::upload_request`]) and records what
//! came back ([`Material::attach_texture`]); a material without a GPU texture
//! is a fully supported state and draws with the primary colour alone.

use vstd::prelude::*;
use crate::model::colour::{Colour, Rgba};
use crate::model::texture::{Image, Texture};
use crate::render::{
    Combiner, CommandView, DeviceState, RenderCommand, RenderContext, Uniforms, COMBINER_STAGE,
    TEXTURE_UNIT,
};

verus! {

/// Pixel format of a GPU texture.
#[derive(Debug, Clone, Copy, PartialEq, Eq)]
pub enum TextureFormat {
    Rgba8,
}

/// What the backend is asked to allocate for a material's texture.
#[derive(Debug, Clone, Copy, PartialEq, Eq)]
pub struct TexParams {
    pub width: u16,
    pub height: u16,
    pub format: TextureFormat,
}

/// What a [`Material`] holds, as contracts speak of it.
#[verifier::ext_equal]
pub struct MaterialView<H> {
    pub texture: Option<Image>,
    /// Emissive colour.
    pub colour: Option<Rgba>,
    pub ambient: Option<Rgba>,
    pub vertex_colours: bool,
    /// The backend's handle of the texture on the GPU.
    pub gpu_texture: Option<H>,
}

impl<H> MaterialView<H> {
    /// The material with nothing set.
    pub open spec fn empty() -> MaterialView<H> {
        MaterialView {
            texture: None,
            colour: None,
            ambient: None,
            vertex_colours: false,
            gpu_texture: None,
        }
    }

    /// The allocation to ask of the backend: an RGBA8 texture of the source
    /// texture's size where there is a source texture whose buffer fits its
    /// size, and none otherwise.
    pub open spec fn upload_request(self) -> Option<TexParams> {
        match self.texture {
            Some(t) => if t.well_formed() {
                Some(TexParams { width: t.width, height: t.height, format: TextureFormat::Rgba8 })
            } else {
                None
            },
            None => None,
        }
    }

    /// A GPU texture is held only where one was to be asked for.
    pub open spec fn well_formed(self) -> bool {
        self.gpu_texture is Some ==> self.upload_request() is Some
    }

    /// The material after the backend answered its upload request with
    /// `allocated`: the handle is kept where something was asked for, and
    /// dropped otherwise.
    pub open spec fn attached(self, allocated: Option<H>) -> MaterialView<H> {
        MaterialView {
            gpu_texture: if self.upload_request() is Some {
                allocated
            } else {
                None
            },
            ..self
        }
    }

    /// The combiner configuration that the material draws with.
    pub open spec fn combiner(self) -> Combiner {
        if self.gpu_texture is Some {
            if self.vertex_colours {
                Combiner::modulate()
            } else {
                Combiner::replace_texture()
            }
        } else {
            Combiner::replace_primary()
        }
    }

    /// The commands that prepare the context for drawing with the material:
    /// with a GPU texture, bind it and configure the combiner; without one,
    /// reset the combiner and configure it.
    pub open spec fn apply_commands<T>(self) -> Seq<CommandView<T, H>> {
        match self.gpu_texture {
            Some(h) => seq![
                CommandView::BindTexture { unit: TEXTURE_UNIT, texture: h },
                CommandView::SetCombiner { stage: COMBINER_STAGE, combiner: self.combiner() },
            ],
            None => seq![
                CommandView::ResetCombiner { stage: COMBINER_STAGE },
                CommandView::SetCombiner { stage: COMBINER_STAGE, combiner: self.combiner() },
            ],
        }
    }

    /// The colour bound for an unset material colour.
    pub open spec fn unset_colour() -> Rgba {
        Rgba { r: 0, g: 0, b: 0, a: 0 }
    }

    /// The commands that bind the material's colours: ambient first, then
    /// emission.
    pub open spec fn uniform_commands<T>(self, uniforms: Uniforms) -> Seq<CommandView<T, H>> {
        seq![
            CommandView::BindColour {
                index: uniforms.material_ambient,
                colour: match self.ambient {
                    Some(c) => c,
                    None => Self::unset_colour(),
                },
            },
            CommandView::BindColour {
                index: uniforms.material_emission,
                colour: match self.colour {
                    Some(c) => c,
                    None => Self::unset_colour(),
                },
            },
        ]
    }
}

/// The surface of a shape. `H` is the backend's handle of a GPU texture; the
/// material owns it, so it is released when the material is dropped.
#[derive(Debug)]
pub struct Material<H> {
    texture: Option<Texture>,
    colour: Option<Colour>,
    ambient: Option<Colour>,
    vertex_colours: bool,
    gpu_texture: Option<H>,
}

impl<H> View for Material<H> {
    type V = MaterialView<H>;

    closed spec fn view(&self) -> MaterialView<H> {
        MaterialView {
            texture: match self.texture {
                Some(t) => Some(t@),
                None => None,
            },
            colour: match self.colour {
                Some(c) => Some(c@),
                None => None,
            },
            ambient: match self.ambient {
                Some(c) => Some(c@),
                None => None,
            },
            vertex_colours: self.vertex_colours,
            gpu_texture: self.gpu_texture,
        }
    }
}

impl<H> Default for Material<H> {
    fn default() -> (m: Self)
        ensures
            m@ == MaterialView::<H>::empty(),
    {
        Material {
            texture: None,
            colour: None,
            ambient: None,
            vertex_colours: false,
            gpu_texture: None,
        }
    }
}

impl<H> Material<H> {
    #[verifier::type_invariant]
    spec fn holds_texture_only_if_asked(&self) -> bool {
        self@.well_formed()
    }

    /// A material with the given source texture and colours. No GPU texture
    /// is held yet: [`Material::upload_request`] says what to allocate.
    pub fn new(
        texture: Option<Texture>,
        colour: Option<Colour>,
        ambient: Option<Colour>,
        vertex_colours: bool,
    ) -> (m: Self)
        ensures
            m@ == (MaterialView::<H> {
                texture: match texture {
                    Some(t) => Some(t@),
                    None => None,
                },
                colour: match colour {
                    Some(c) => Some(c@),
                    None => None,
                },
                ambient: match ambient {
                    Some(c) => Some(c@),
                    None => None,
                },
                vertex_colours,
                gpu_texture: None,
            }),
    {
        Material { texture, colour, ambient, vertex_colours, gpu_texture: None }
    }

    /// Whether the colours of the vertices take part in drawing.
    pub fn use_vertex_colours(&self) -> (b: bool)
        ensures
            b == self@.vertex_colours,
    {
        self.vertex_colours
    }

    /// The source texture.
    pub fn texture(&self) -> (t: Option<&Texture>)
        ensures
            match t {
                Some(t) => self@.texture == Some(t@),
                None => self@.texture is None,
            },
    {
        self.texture.as_ref()
    }

    /// The emissive colour.
    pub fn colour(&self) -> (c: Option<Colour>)
        ensures
            match c {
                Some(c) => self@.colour == Some(c@),
                None => self@.colour is None,
            },
    {
        self.colour
    }

    /// The ambient colour.
    pub fn ambient(&self) -> (c: Option<Colour>)
        ensures
            match c {
                Some(c) => self@.ambient == Some(c@),
                None => self@.ambient is None,
            },
    {
        self.ambient
    }

    /// What to ask the backend to allocate for this material, if anything. A
    /// source texture whose buffer does not fit its size is never uploaded.
    pub fn upload_request(&self) -> (request: Option<TexParams>)
        ensures
            request == self@.upload_request(),
    {
        match &self.texture {
            Some(t) => {
                if t.is_well_formed() {
                    Some(
                        TexParams {
                            width: t.width(),
                            height: t.height(),
                            format: TextureFormat::Rgba8,
                        },
                    )
                } else {
                    None
                }
            },
            None => None,
        }
    }

    /// Records the backend's answer to [`Material::upload_request`]: the
    /// handle of the texture it allocated, or `None` where it could not. A
    /// handle offered to a material that asked for nothing is dropped.
    pub fn attach_texture(&mut self, allocated: Option<H>)
        ensures
            final(self)@ == old(self)@.attached(allocated),
    {
        if self.upload_request().is_some() {
            self.gpu_texture = allocated;
        } else {
            self.gpu_texture = None;
        }
    }

    /// The GPU texture, if one is held. Where one is held, the source texture
    /// is present and its buffer fits its size.
    pub fn get_texture(&self) -> (t: Option<&H>)
        ensures
            match t {
                Some(h) => self@.gpu_texture == Some(*h),
                None => self@.gpu_texture is None,
            },
            self@.well_formed(),
    {
        proof {
            use_type_invariant(self);
        }
        self.gpu_texture.as_ref()
    }

    /// The combiner configuration that the material draws with.
    pub fn combiner(&self) -> (c: Combiner)
        ensures
            c == self@.combiner(),
    {
        if self.gpu_texture.is_some() {
            if self.vertex_colours {
                Combiner::modulate()
            } else {
                Combiner::replace_texture()
            }
        } else {
            Combiner::replace_primary()
        }
    }

    /// Prepares the context for drawing with this material.
    pub fn apply<'a, T>(&'a self, gpu: &mut RenderContext<'a, T, H>)
        ensures
            final(gpu)@ == old(gpu)@ + self@.apply_commands::<T>(),
            self@.well_formed(),
    {
        proof {
            use_type_invariant(self);
        }
        let combiner = self.combiner();
        match &self.gpu_texture {
            Some(h) => {
                gpu.push(RenderCommand::BindTexture { unit: TEXTURE_UNIT, texture: h });
            },
            None => {
                gpu.push(RenderCommand::ResetCombiner { stage: COMBINER_STAGE });
            },
        }
        gpu.push(RenderCommand::SetCombiner { stage: COMBINER_STAGE, combiner });
    }

    /// Binds the material's ambient and emissive colours to their uniform
    /// slots; a colour that is not set is bound as transparent black.
    pub fn set_uniforms<'a, T>(&self, gpu: &mut RenderContext<'a, T, H>, uniforms: &Uniforms)
        ensures
            final(gpu)@ == old(gpu)@ + self@.uniform_commands::<T>(*uniforms),
    {
        let amb = match self.ambient {
            Some(c) => c,
            None => Colour::new(0, 0, 0, 0),
        };
        let emi = match self.colour {
            Some(c) => c,
            None => Colour::new(0, 0, 0, 0),
        };
        gpu.push(RenderCommand::BindColour { index: uniforms.material_ambient, colour: amb });
        gpu.push(RenderCommand::BindColour { index: uniforms.material_emission, colour: emi });
    }
}

/// Nothing is uploaded for a texture whose buffer does not fit its size. An
/// upload is asked for exactly where there is a source texture that holds one
/// RGBA8 pixel per texel, and then for that texture's own size; and a
/// material holds a GPU texture only where its source texture is such a one,
/// whatever the backend answered.
pub proof fn lemma_only_well_formed_textures_are_uploaded<H>(
    m: MaterialView<H>,
    allocated: Option<H>,
)
    ensures
        m.upload_request() is Some <==> m.texture is Some && m.texture->0.pixels.len()
            == m.texture->0.width * m.texture->0.height * 4,
        m.upload_request() matches Some(p) ==> p.width == m.texture->0.width && p.height
            == m.texture->0.height && p.format == TextureFormat::Rgba8,
        m.attached(allocated).well_formed(),
        m.attached(allocated).gpu_texture is Some ==> m.texture is Some
            && m.texture->0.well_formed(),
        m.well_formed() && m.gpu_texture is Some ==> m.texture is Some
            && m.texture->0.well_formed(),
{
}

/// The three combiner configurations differ from one another, and the state
/// of the material selects among them: texture times vertex colour with a GPU
/// texture and vertex colours, the texture alone with a GPU texture and no
/// vertex colours, the primary colour alone without a GPU texture.
pub proof fn lemma_combiner_selection<H>(m: MaterialView<H>)
    ensures
        Combiner::modulate() != Combiner::replace_texture(),
        Combiner::modulate() != Combiner::replace_primary(),
        Combiner::replace_texture() != Combiner::replace_primary(),
        m.combiner() == Combiner::modulate() <==> m.gpu_texture is Some && m.vertex_colours,
        m.combiner() == Combiner::replace_texture() <==> m.gpu_texture is Some
            && !m.vertex_colours,
        m.combiner() == Combiner::replace_primary() <==> m.gpu_texture is None,
        m.combiner().samples_texture() <==> m.gpu_texture is Some,
{
}

/// A failed allocation is no error: the material then holds no GPU texture
/// and draws as one without a texture does, by the primary colour alone.
pub proof fn lemma_failed_allocation_draws_untextured<T, H>(m: MaterialView<H>)
    ensures
        m.attached(None).gpu_texture is None,
        m.attached(None).combiner() == Combiner::replace_primary(),
        m.attached(None).apply_commands::<T>() == seq![
            CommandView::<T, H>::ResetCombiner { stage: COMBINER_STAGE },
            CommandView::<T, H>::SetCombiner {
                stage: COMBINER_STAGE,
                combiner: Combiner::replace_primary(),
            },
        ],
{
}

/// A material made without a source texture never binds one: whatever the
/// backend is said to have allocated, it holds no GPU texture, and it
/// prepares the context by resetting the combiner and selecting the primary
/// colour alone.
pub proof fn lemma_untextured_material_binds_nothing<T, H>(
    m: MaterialView<H>,
    allocated: Option<H>,
)
    requires
        m.well_formed(),
        m.texture is None,
    ensures
        m.upload_request() is None,
        m.gpu_texture is None,
        m.attached(allocated) == m,
        m.apply_commands::<T>() == seq![
            CommandView::<T, H>::ResetCombiner { stage: COMBINER_STAGE },
            CommandView::<T, H>::SetCombiner {
                stage: COMBINER_STAGE,
                combiner: Combiner::replace_primary(),
            },
        ],
{
}

/// After a material's colours are bound, the emission slot holds its
/// emissive colour and, where the two slots differ, the ambient slot holds
/// its ambient colour; a colour that is not set is held as transparent black.
pub proof fn lemma_uniform_colours<T, H>(
    before: DeviceState<T, H>,
    m: MaterialView<H>,
    uniforms: Uniforms,
)
    ensures
        ({
            let after = before.replay(m.uniform_commands::<T>(uniforms), 2);
            &&& after.colours.dom().contains(uniforms.material_emission)
            &&& after.colours[uniforms.material_emission] == match m.colour {
                Some(c) => c,
                None => MaterialView::<H>::unset_colour(),
            }
            &&& after.colours.dom().contains(uniforms.material_ambient)
            &&& uniforms.material_ambient != uniforms.material_emission
                ==> after.colours[uniforms.material_ambient] == match m.ambient {
                Some(c) => c,
                None => MaterialView::<H>::unset_colour(),
            }
            &&& after.texture == before.texture
            &&& after.combiner == before.combiner
            &&& after.vertices == before.vertices
            &&& after.matrices == before.matrices
        }),
{
    reveal_with_fuel(DeviceState::replay, 3);
}

} // verus!
