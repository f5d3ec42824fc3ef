//! Assembly of models from a parsed Wavefront OBJ document.
//!
//! The document arrives parsed: positions, texture coordinates, and objects
//! made of material groups made of faces. One model is built per object and
//! one triangle-list shape per group. A face contributes its first three
//! corners and no more; faces are taken to be triangles already, and nothing
//! is triangulated.

use vstd::prelude::*;
use crate::math::{Vec2, Vec3, Vert};
use crate::model::colour::{Colour, Rgba};
use crate::model::material::{Material, MaterialView, TexParams, TextureFormat};
use crate::model::shape::{Shape, ShapeView};
use crate::model::texture::{Image, Texture};
use crate::model::{model_views, Model, ModelView};
use crate::render::Primitive;

verus! {

/// The number of corners that a face contributes at most.
pub const MAX_FACE_VERTICES: usize = 3;

/// Width and height assumed of every diffuse texture map.
pub const DIFFUSE_MAP_SIZE: u16 = 512;

/// Width and height of the transparent texture that stands in where a group
/// has no diffuse texture map.
pub const PLACEHOLDER_SIZE: u16 = 64;

/// Alpha of a colour made from a diffuse coefficient.
pub const OPAQUE: u8 = 0xFF;

/// Calibration of texture coordinates for the bundled texture atlas: `u` is
/// scaled by `TEX_U_SCALE_NUM / TEX_SCALE_DEN`, `v` by
/// `TEX_V_SCALE_NUM / TEX_SCALE_DEN` and then, with `TEX_V_FLIP`, taken from
/// one. These are constants of the one atlas, not a general transform. The
/// texture coordinates of an [`ObjDocument`] are calibrated already.
pub const TEX_U_SCALE_NUM: u16 = 480;

/// Numerator of the scale of `v`.
pub const TEX_V_SCALE_NUM: u16 = 395;

/// Denominator of both scales.
pub const TEX_SCALE_DEN: u16 = 512;

/// Whether the scaled `v` is taken from one.
pub const TEX_V_FLIP: bool = true;

/// One corner of a face: an index into the positions and, where the face
/// gives one, an index into the texture coordinates.
#[derive(Debug, Clone, Copy, PartialEq, Eq)]
pub struct FaceVertex {
    pub position: usize,
    pub tex_coord: Option<usize>,
}

/// The material that a group refers to.
#[derive(Debug, PartialEq, Eq)]
pub enum GroupMaterial {
    /// A material known by name only: its library did not define it.
    Reference,
    /// A material whose definition is at hand.
    Inline {
        /// The diffuse coefficient, each channel scaled to a byte.
        diffuse: Option<(u8, u8, u8)>,
        /// The bytes of the diffuse texture map, RGBA8, row-major.
        diffuse_map: Option<Vec<u8>>,
    },
}

/// Faces that share one material.
#[derive(Debug, PartialEq, Eq)]
pub struct Group {
    pub material: Option<GroupMaterial>,
    pub faces: Vec<Vec<FaceVertex>>,
}

/// One object of the document.
#[derive(Debug, PartialEq, Eq)]
pub struct Object {
    pub groups: Vec<Group>,
}

/// A parsed OBJ document.
#[derive(Debug, PartialEq, Eq)]
pub struct ObjDocument {
    /// The `v` entries, in file order.
    pub positions: Vec<Vec3>,
    /// The `vt` entries, in file order, calibrated for the texture atlas.
    pub tex_coords: Vec<Vec2>,
    /// The objects, in file order.
    pub objects: Vec<Object>,
}

/// Why a document cannot be imported.
#[derive(Debug, Clone, Copy, PartialEq, Eq)]
pub enum ImportError {
    /// A group refers to a material by name only.
    UnsupportedMaterial,
    /// One of the first three corners of a face names a position that the
    /// document does not hold.
    PositionOutOfRange,
    /// One of the first three corners of a face names a texture coordinate
    /// that the document does not hold.
    TexCoordOutOfRange,
}

/// The number of corners that a face contributes: all of them up to three.
pub open spec fn emitted_corners(face: Seq<FaceVertex>) -> int {
    if face.len() < MAX_FACE_VERTICES {
        face.len() as int
    } else {
        MAX_FACE_VERTICES as int
    }
}

/// The vertex of a corner: its position, and its texture coordinate or, where
/// the corner has none, the origin.
pub open spec fn corner_vertex(positions: Seq<Vec3>, tex_coords: Seq<Vec2>, c: FaceVertex) -> Vert {
    Vert {
        pos: positions[c.position as int],
        tex: match c.tex_coord {
            Some(t) => tex_coords[t as int],
            None => Vec2::zero(),
        },
    }
}

/// The vertices of a face: those of its first three corners, in file order.
pub open spec fn face_mesh(positions: Seq<Vec3>, tex_coords: Seq<Vec2>, face: Seq<FaceVertex>) -> Seq<
    Vert,
> {
    Seq::new(
        emitted_corners(face) as nat,
        |k: int| corner_vertex(positions, tex_coords, face[k]),
    )
}

/// Whether a contributing corner of the face names a missing position.
pub open spec fn face_lacks_position(positions: Seq<Vec3>, face: Seq<FaceVertex>) -> bool {
    exists|k: int| 0 <= k < emitted_corners(face) && (#[trigger] face[k]).position >= positions.len()
}

/// Whether a contributing corner of the face names a missing texture
/// coordinate.
pub open spec fn face_lacks_tex_coord(tex_coords: Seq<Vec2>, face: Seq<FaceVertex>) -> bool {
    exists|k: int|
        0 <= k < emitted_corners(face) && (#[trigger] face[k]).tex_coord is Some
            && face[k].tex_coord->0 >= tex_coords.len()
}

/// What is wrong with a face, if anything. Positions are looked up before
/// texture coordinates.
pub open spec fn face_fault(positions: Seq<Vec3>, tex_coords: Seq<Vec2>, face: Seq<FaceVertex>) -> Option<
    ImportError,
> {
    if face_lacks_position(positions, face) {
        Some(ImportError::PositionOutOfRange)
    } else if face_lacks_tex_coord(tex_coords, face) {
        Some(ImportError::TexCoordOutOfRange)
    } else {
        None
    }
}

/// The fault of the first faulty face at or after `from`.
pub open spec fn faces_fault(
    positions: Seq<Vec3>,
    tex_coords: Seq<Vec2>,
    faces: Seq<Vec<FaceVertex>>,
    from: int,
) -> Option<ImportError>
    decreases faces.len() - from,
{
    if from < 0 || from >= faces.len() {
        None
    } else {
        match face_fault(positions, tex_coords, faces[from]@) {
            Some(e) => Some(e),
            None => faces_fault(positions, tex_coords, faces, from + 1),
        }
    }
}

/// The vertices of the first `n` faces, face after face.
pub open spec fn faces_mesh(
    positions: Seq<Vec3>,
    tex_coords: Seq<Vec2>,
    faces: Seq<Vec<FaceVertex>>,
    n: int,
) -> Seq<Vert>
    decreases n,
{
    if n <= 0 {
        Seq::empty()
    } else {
        faces_mesh(positions, tex_coords, faces, n - 1) + face_mesh(
            positions,
            tex_coords,
            faces[n - 1]@,
        )
    }
}

/// The source texture of a group's material: the diffuse map at its assumed
/// size where the material has one, else the transparent placeholder.
pub open spec fn group_texture(material: Option<GroupMaterial>) -> Image {
    match material {
        Some(GroupMaterial::Inline { diffuse_map: Some(bytes), .. }) => Image {
            width: DIFFUSE_MAP_SIZE,
            height: DIFFUSE_MAP_SIZE,
            pixels: bytes@,
        },
        _ => Image::transparent(PLACEHOLDER_SIZE, PLACEHOLDER_SIZE),
    }
}

/// The emissive colour of a group's material: the diffuse coefficient, fully
/// opaque, where the material has one.
pub open spec fn group_colour(material: Option<GroupMaterial>) -> Option<Rgba> {
    match material {
        Some(GroupMaterial::Inline { diffuse: Some(rgb), .. }) => Some(
            Rgba { r: rgb.0, g: rgb.1, b: rgb.2, a: OPAQUE },
        ),
        _ => None,
    }
}

/// The material built for a group. It uses vertex colours and holds no GPU
/// texture yet.
pub open spec fn group_material<H>(material: Option<GroupMaterial>) -> MaterialView<H> {
    MaterialView {
        texture: Some(group_texture(material)),
        colour: group_colour(material),
        ambient: None,
        vertex_colours: true,
        gpu_texture: None,
    }
}

/// What is wrong with a group, if anything. The material is looked at before
/// the faces.
pub open spec fn group_fault(positions: Seq<Vec3>, tex_coords: Seq<Vec2>, group: Group) -> Option<
    ImportError,
> {
    if group.material is Some && group.material->0 is Reference {
        Some(ImportError::UnsupportedMaterial)
    } else {
        faces_fault(positions, tex_coords, group.faces@, 0)
    }
}

/// The shape built for a group: a triangle list of the vertices of all its
/// faces.
pub open spec fn group_view<H>(positions: Seq<Vec3>, tex_coords: Seq<Vec2>, group: Group) -> ShapeView<
    Vert,
    H,
> {
    ShapeView {
        material: group_material(group.material),
        primitive: Primitive::Triangles,
        vertices: faces_mesh(positions, tex_coords, group.faces@, group.faces@.len() as int),
    }
}

/// The fault of the first faulty group at or after `from`.
pub open spec fn groups_fault(
    positions: Seq<Vec3>,
    tex_coords: Seq<Vec2>,
    groups: Seq<Group>,
    from: int,
) -> Option<ImportError>
    decreases groups.len() - from,
{
    if from < 0 || from >= groups.len() {
        None
    } else {
        match group_fault(positions, tex_coords, groups[from]) {
            Some(e) => Some(e),
            None => groups_fault(positions, tex_coords, groups, from + 1),
        }
    }
}

/// The model built for an object: at the origin, not rotated, at unit scale,
/// with one shape per group in file order.
pub open spec fn object_view<H>(positions: Seq<Vec3>, tex_coords: Seq<Vec2>, object: Object) -> ModelView<
    Vert,
    H,
> {
    ModelView {
        pos: Vec3::zero(),
        rot: Vec3::zero(),
        scale: Vec3::one(),
        shapes: Seq::new(
            object.groups@.len(),
            |j: int| group_view(positions, tex_coords, object.groups@[j]),
        ),
    }
}

/// The fault of the first faulty object at or after `from`.
pub open spec fn objects_fault(doc: ObjDocument, from: int) -> Option<ImportError>
    decreases doc.objects@.len() - from,
{
    if from < 0 || from >= doc.objects@.len() {
        None
    } else {
        match groups_fault(doc.positions@, doc.tex_coords@, doc.objects@[from].groups@, 0) {
            Some(e) => Some(e),
            None => objects_fault(doc, from + 1),
        }
    }
}

/// What is wrong with a document, if anything: the fault that is met first
/// when objects, groups and faces are gone through in file order.
pub open spec fn document_fault(doc: ObjDocument) -> Option<ImportError> {
    objects_fault(doc, 0)
}

/// The models of a document: one per object, in file order.
pub open spec fn import<H>(doc: ObjDocument) -> Seq<ModelView<Vert, H>> {
    Seq::new(
        doc.objects@.len(),
        |i: int| object_view(doc.positions@, doc.tex_coords@, doc.objects@[i]),
    )
}

/// The vertices that a face contributes.
pub fn face_vertices(positions: &Vec<Vec3>, tex_coords: &Vec<Vec2>, face: &Vec<FaceVertex>) -> (r:
    Result<Vec<Vert>, ImportError>)
    ensures
        match r {
            Ok(verts) => face_fault(positions@, tex_coords@, face@) is None && verts@ == face_mesh(
                positions@,
                tex_coords@,
                face@,
            ),
            Err(e) => face_fault(positions@, tex_coords@, face@) == Some(e),
        },
{
    let n: usize = if face.len() < MAX_FACE_VERTICES {
        face.len()
    } else {
        MAX_FACE_VERTICES
    };
    let mut k: usize = 0;
    while k < n
        invariant
            k <= n,
            n == emitted_corners(face@),
            forall|j: int| 0 <= j < k ==> (#[trigger] face@[j]).position < positions@.len(),
        decreases n - k,
    {
        if face[k].position >= positions.len() {
            return Err(ImportError::PositionOutOfRange);
        }
        k = k + 1;
    }
    let mut verts: Vec<Vert> = Vec::new();
    k = 0;
    while k < n
        invariant
            k <= n,
            n == emitted_corners(face@),
            !face_lacks_position(positions@, face@),
            forall|j: int|
                0 <= j < k && (#[trigger] face@[j]).tex_coord is Some ==> face@[j].tex_coord->0
                    < tex_coords@.len(),
            verts@.len() == k,
            forall|j: int|
                0 <= j < k ==> verts@[j] == corner_vertex(positions@, tex_coords@, face@[j]),
        decreases n - k,
    {
        let corner = face[k];
        let tex = match corner.tex_coord {
            Some(t) => {
                if t >= tex_coords.len() {
                    return Err(ImportError::TexCoordOutOfRange);
                }
                tex_coords[t]
            },
            None => Vec2::zero(),
        };
        verts.push(Vert { pos: positions[corner.position], tex });
        k = k + 1;
    }
    Ok(verts)
}

/// The vertices that the faces of a group contribute, face after face.
pub fn group_vertices(
    positions: &Vec<Vec3>,
    tex_coords: &Vec<Vec2>,
    faces: &Vec<Vec<FaceVertex>>,
) -> (r: Result<Vec<Vert>, ImportError>)
    ensures
        match r {
            Ok(verts) => faces_fault(positions@, tex_coords@, faces@, 0) is None && verts@
                == faces_mesh(positions@, tex_coords@, faces@, faces@.len() as int),
            Err(e) => faces_fault(positions@, tex_coords@, faces@, 0) == Some(e),
        },
{
    let mut verts: Vec<Vert> = Vec::new();
    let mut i: usize = 0;
    while i < faces.len()
        invariant
            i <= faces.len(),
            faces_fault(positions@, tex_coords@, faces@, 0) == faces_fault(
                positions@,
                tex_coords@,
                faces@,
                i as int,
            ),
            verts@ == faces_mesh(positions@, tex_coords@, faces@, i as int),
        decreases faces.len() - i,
    {
        match face_vertices(positions, tex_coords, &faces[i]) {
            Ok(mut corners) => {
                verts.append(&mut corners);
            },
            Err(e) => {
                return Err(e);
            },
        }
        i = i + 1;
    }
    Ok(verts)
}

/// The material of a group.
pub fn make_material<H>(material: &Option<GroupMaterial>) -> (m: Material<H>)
    ensures
        m@ == group_material::<H>(*material),
{
    match material {
        Some(GroupMaterial::Inline { diffuse, diffuse_map }) => {
            let colour = match diffuse {
                Some(rgb) => Some(Colour::new(rgb.0, rgb.1, rgb.2, OPAQUE)),
                None => None,
            };
            let texture = match diffuse_map {
                Some(bytes) => {
                    let pixels = bytes.clone();
                    Texture::new(DIFFUSE_MAP_SIZE, DIFFUSE_MAP_SIZE, pixels)
                },
                None => Texture::transparent(PLACEHOLDER_SIZE, PLACEHOLDER_SIZE),
            };
            Material::new(Some(texture), colour, None, true)
        },
        _ => Material::new(
            Some(Texture::transparent(PLACEHOLDER_SIZE, PLACEHOLDER_SIZE)),
            None,
            None,
            true,
        ),
    }
}

/// The shape of a group.
pub fn group_shape<H>(positions: &Vec<Vec3>, tex_coords: &Vec<Vec2>, group: &Group) -> (r: Result<
    Shape<Vert, H>,
    ImportError,
>)
    ensures
        match r {
            Ok(shape) => group_fault(positions@, tex_coords@, *group) is None && shape@
                == group_view::<H>(positions@, tex_coords@, *group),
            Err(e) => group_fault(positions@, tex_coords@, *group) == Some(e),
        },
{
    match &group.material {
        Some(GroupMaterial::Reference) => {
            return Err(ImportError::UnsupportedMaterial);
        },
        _ => {},
    }
    let verts = match group_vertices(positions, tex_coords, &group.faces) {
        Ok(verts) => verts,
        Err(e) => {
            return Err(e);
        },
    };
    let mat = make_material(&group.material);
    Ok(Shape::new(mat, Primitive::Triangles, verts.as_slice()))
}

/// The model of an object.
pub fn object_model<H>(positions: &Vec<Vec3>, tex_coords: &Vec<Vec2>, object: &Object) -> (r:
    Result<Model<Vert, H>, ImportError>)
    ensures
        match r {
            Ok(model) => groups_fault(positions@, tex_coords@, object.groups@, 0) is None && model@
                == object_view::<H>(positions@, tex_coords@, *object),
            Err(e) => groups_fault(positions@, tex_coords@, object.groups@, 0) == Some(e),
        },
{
    let mut shapes: Vec<Shape<Vert, H>> = Vec::new();
    let mut j: usize = 0;
    while j < object.groups.len()
        invariant
            j <= object.groups.len(),
            groups_fault(positions@, tex_coords@, object.groups@, 0) == groups_fault(
                positions@,
                tex_coords@,
                object.groups@,
                j as int,
            ),
            shapes@.len() == j,
            forall|k: int|
                0 <= k < j ==> (#[trigger] shapes@[k])@ == group_view::<H>(
                    positions@,
                    tex_coords@,
                    object.groups@[k],
                ),
        decreases object.groups.len() - j,
    {
        match group_shape(positions, tex_coords, &object.groups[j]) {
            Ok(shape) => {
                shapes.push(shape);
            },
            Err(e) => {
                return Err(e);
            },
        }
        j = j + 1;
    }
    let model = Model::new(Vec3::zero(), Vec3::zero(), shapes);
    Ok(model)
}

/// Builds the models of a parsed document, one per object in file order, or
/// says what is wrong with the document. The materials hold no GPU texture
/// yet.
pub fn parse_obj<H>(doc: &ObjDocument) -> (r: Result<Vec<Model<Vert, H>>, ImportError>)
    ensures
        match r {
            Ok(models) => document_fault(*doc) is None && model_views(models@) == import::<H>(
                *doc,
            ),
            Err(e) => document_fault(*doc) == Some(e),
        },
{
    let mut models: Vec<Model<Vert, H>> = Vec::new();
    let mut i: usize = 0;
    while i < doc.objects.len()
        invariant
            i <= doc.objects.len(),
            document_fault(*doc) == objects_fault(*doc, i as int),
            models@.len() == i,
            forall|k: int|
                0 <= k < i ==> (#[trigger] models@[k])@ == object_view::<H>(
                    doc.positions@,
                    doc.tex_coords@,
                    doc.objects@[k],
                ),
        decreases doc.objects.len() - i,
    {
        match object_model(&doc.positions, &doc.tex_coords, &doc.objects[i]) {
            Ok(model) => {
                models.push(model);
            },
            Err(e) => {
                return Err(e);
            },
        }
        i = i + 1;
    }
    Ok(models)
}

/// A face of more than three corners is cut, not triangulated: a face
/// contributes the vertices of its first three corners in file order, or of
/// all its corners where it has fewer.
pub proof fn lemma_face_truncation(
    positions: Seq<Vec3>,
    tex_coords: Seq<Vec2>,
    face: Seq<FaceVertex>,
)
    ensures
        face.len() >= 3 ==> face_mesh(positions, tex_coords, face).len() == 3,
        face.len() < 3 ==> face_mesh(positions, tex_coords, face).len() == face.len(),
        forall|k: int|
            0 <= k < face_mesh(positions, tex_coords, face).len() ==> #[trigger] face_mesh(
                positions,
                tex_coords,
                face,
            )[k] == corner_vertex(positions, tex_coords, face[k]),
        forall|k: int|
            0 <= k < face_mesh(positions, tex_coords, face).len() && (#[trigger] face[k]).tex_coord
                is None ==> face_mesh(positions, tex_coords, face)[k].tex == Vec2::zero(),
{
}

/// A group of triangles makes a triangle list of three vertices a face: the
/// vertices of face `i` stand at `3 * i`, `3 * i + 1` and `3 * i + 2`.
pub proof fn lemma_triangle_list(
    positions: Seq<Vec3>,
    tex_coords: Seq<Vec2>,
    faces: Seq<Vec<FaceVertex>>,
    n: int,
)
    requires
        0 <= n <= faces.len(),
        forall|i: int| 0 <= i < n ==> (#[trigger] faces[i])@.len() >= 3,
    ensures
        faces_mesh(positions, tex_coords, faces, n).len() == 3 * n,
        forall|i: int|
            0 <= i < n ==> faces_mesh(positions, tex_coords, faces, n).subrange(3 * i, 3 * i + 3)
                == face_mesh(positions, tex_coords, (#[trigger] faces[i])@),
    decreases n,
{
    if n > 0 {
        lemma_triangle_list(positions, tex_coords, faces, n - 1);
        let before = faces_mesh(positions, tex_coords, faces, n - 1);
        let all = faces_mesh(positions, tex_coords, faces, n);
        assert forall|i: int| 0 <= i < n implies all.subrange(3 * i, 3 * i + 3) == face_mesh(
            positions,
            tex_coords,
            (#[trigger] faces[i])@,
        ) by {
            if i < n - 1 {
                assert(all.subrange(3 * i, 3 * i + 3) =~= before.subrange(3 * i, 3 * i + 3));
            } else {
                assert(all.subrange(3 * i, 3 * i + 3) =~= face_mesh(
                    positions,
                    tex_coords,
                    faces[i]@,
                ));
            }
        }
    }
}

/// A group without a diffuse texture map gets the placeholder: a texture of
/// 64 by 64 pixels, every byte zero, which fits its size and so is uploaded
/// like any other.
pub proof fn lemma_placeholder_texture<H>(material: Option<GroupMaterial>)
    requires
        !(material matches Some(GroupMaterial::Inline { diffuse_map: Some(_), .. })),
    ensures
        group_texture(material) == Image::transparent(PLACEHOLDER_SIZE, PLACEHOLDER_SIZE),
        group_texture(material).width == 64,
        group_texture(material).height == 64,
        group_texture(material).pixels.len() == 64 * 64 * 4,
        forall|i: int|
            0 <= i < group_texture(material).pixels.len() ==> #[trigger] group_texture(
                material,
            ).pixels[i] == 0,
        group_texture(material).well_formed(),
        group_material::<H>(material).upload_request() == Some(
            TexParams { width: 64, height: 64, format: TextureFormat::Rgba8 },
        ),
{
}

/// The models of a document: one model per object and one shape per group,
/// in file order; every model at the origin, not rotated, at unit scale;
/// every shape a triangle list whose material has a source texture, uses
/// vertex colours, has no ambient colour and holds no GPU texture yet.
pub proof fn lemma_import_layout<H>(doc: ObjDocument)
    ensures
        import::<H>(doc).len() == doc.objects@.len(),
        forall|i: int|
            0 <= i < doc.objects@.len() ==> {
                let model = #[trigger] import::<H>(doc)[i];
                &&& model.pos == Vec3::zero()
                &&& model.rot == Vec3::zero()
                &&& model.scale == Vec3::one()
                &&& model.shapes.len() == doc.objects@[i].groups@.len()
            },
        forall|i: int, j: int|
            0 <= i < doc.objects@.len() && 0 <= j < doc.objects@[i].groups@.len() ==> {
                let shape = #[trigger] import::<H>(doc)[i].shapes[j];
                &&& shape == group_view::<H>(
                    doc.positions@,
                    doc.tex_coords@,
                    doc.objects@[i].groups@[j],
                )
                &&& shape.primitive == Primitive::Triangles
                &&& shape.material.texture is Some
                &&& shape.material.vertex_colours
                &&& shape.material.ambient is None
                &&& shape.material.gpu_texture is None
                &&& shape.material.well_formed()
            },
{
}

/// Whether the indices of a corner name a position and, where the corner has
/// one, a texture coordinate that the document holds.
pub open spec fn corner_in_range(positions: Seq<Vec3>, tex_coords: Seq<Vec2>, c: FaceVertex) -> bool {
    &&& c.position < positions.len()
    &&& c.tex_coord matches Some(t) ==> t < tex_coords.len()
}

/// Whether a group can be imported: its material, if it has one, is defined,
/// and the first three corners of each of its faces are in range.
pub open spec fn group_importable(positions: Seq<Vec3>, tex_coords: Seq<Vec2>, group: Group) -> bool {
    &&& !(group.material is Some && group.material->0 is Reference)
    &&& forall|f: int, k: int|
        0 <= f < group.faces@.len() && 0 <= k < emitted_corners(group.faces@[f]@)
            ==> corner_in_range(positions, tex_coords, #[trigger] group.faces@[f]@[k])
}

/// Whether every group of every object can be imported.
pub open spec fn document_importable(doc: ObjDocument) -> bool {
    forall|i: int, j: int|
        0 <= i < doc.objects@.len() && 0 <= j < doc.objects@[i].groups@.len()
            ==> group_importable(
            doc.positions@,
            doc.tex_coords@,
            #[trigger] doc.objects@[i].groups@[j],
        )
}

proof fn lemma_face_fault_none(positions: Seq<Vec3>, tex_coords: Seq<Vec2>, face: Seq<FaceVertex>)
    ensures
        face_fault(positions, tex_coords, face) is None <==> forall|k: int|
            0 <= k < emitted_corners(face) ==> corner_in_range(
                positions,
                tex_coords,
                #[trigger] face[k],
            ),
{
    if face_fault(positions, tex_coords, face) is None {
        assert forall|k: int| 0 <= k < emitted_corners(face) implies corner_in_range(
            positions,
            tex_coords,
            #[trigger] face[k],
        ) by {
            if !corner_in_range(positions, tex_coords, face[k]) {
                if face[k].position >= positions.len() {
                    assert(face_lacks_position(positions, face));
                } else {
                    assert(face_lacks_tex_coord(tex_coords, face));
                }
            }
        }
    }
}

proof fn lemma_faces_fault_none(
    positions: Seq<Vec3>,
    tex_coords: Seq<Vec2>,
    faces: Seq<Vec<FaceVertex>>,
    from: int,
)
    requires
        0 <= from <= faces.len(),
    ensures
        faces_fault(positions, tex_coords, faces, from) is None <==> forall|f: int|
            from <= f < faces.len() ==> face_fault(positions, tex_coords, (#[trigger] faces[f])@)
                is None,
    decreases faces.len() - from,
{
    if from < faces.len() {
        lemma_faces_fault_none(positions, tex_coords, faces, from + 1);
    }
}

proof fn lemma_group_fault_none(positions: Seq<Vec3>, tex_coords: Seq<Vec2>, group: Group)
    ensures
        group_fault(positions, tex_coords, group) is None <==> group_importable(
            positions,
            tex_coords,
            group,
        ),
{
    lemma_faces_fault_none(positions, tex_coords, group.faces@, 0);
    assert forall|f: int| 0 <= f < group.faces@.len() implies (face_fault(
        positions,
        tex_coords,
        (#[trigger] group.faces@[f])@,
    ) is None <==> forall|k: int|
        0 <= k < emitted_corners(group.faces@[f]@) ==> corner_in_range(
            positions,
            tex_coords,
            #[trigger] group.faces@[f]@[k],
        )) by {
        lemma_face_fault_none(positions, tex_coords, group.faces@[f]@);
    }
}

proof fn lemma_groups_fault_none(
    positions: Seq<Vec3>,
    tex_coords: Seq<Vec2>,
    groups: Seq<Group>,
    from: int,
)
    requires
        0 <= from <= groups.len(),
    ensures
        groups_fault(positions, tex_coords, groups, from) is None <==> forall|j: int|
            from <= j < groups.len() ==> group_importable(
                positions,
                tex_coords,
                #[trigger] groups[j],
            ),
    decreases groups.len() - from,
{
    if from < groups.len() {
        lemma_groups_fault_none(positions, tex_coords, groups, from + 1);
        lemma_group_fault_none(positions, tex_coords, groups[from]);
    }
}

proof fn lemma_objects_fault_none(doc: ObjDocument, from: int)
    requires
        0 <= from <= doc.objects@.len(),
    ensures
        objects_fault(doc, from) is None <==> forall|i: int, j: int|
            from <= i < doc.objects@.len() && 0 <= j < doc.objects@[i].groups@.len()
                ==> group_importable(
                doc.positions@,
                doc.tex_coords@,
                #[trigger] doc.objects@[i].groups@[j],
            ),
    decreases doc.objects@.len() - from,
{
    if from < doc.objects@.len() {
        lemma_objects_fault_none(doc, from + 1);
        lemma_groups_fault_none(doc.positions@, doc.tex_coords@, doc.objects@[from].groups@, 0);
    }
}

/// A document is imported exactly when no group refers to a material by name
/// only and the first three corners of every face name positions and texture
/// coordinates that the document holds. Corners past the third are never
/// looked up.
pub proof fn lemma_import_succeeds_iff(doc: ObjDocument)
    ensures
        document_fault(doc) is None <==> document_importable(doc),
{
    lemma_objects_fault_none(doc, 0);
}

} // verus!
