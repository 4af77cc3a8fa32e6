use vstd::prelude::*;
use crate::model::{
    Point3, TagOrResource, FaceTexture, Direction, ModelElement, BlockModel,
    NamespacedResource, BLOCK_UNIT,
};
use crate::atlas::{AtlasCoord, AtlasUv, AtlasSnapshot, UvError, resolve};
use crate::mesh::{MeshVertex, bake_face, face_vertices};

verus! {

/// The baked faces of one cuboid: two triangles for each face that has a
/// texture, nothing for the others.
#[derive(Debug)]
pub struct BlockModelFaces {
    pub north: Option<[MeshVertex; 6]>,
    pub east: Option<[MeshVertex; 6]>,
    pub south: Option<[MeshVertex; 6]>,
    pub west: Option<[MeshVertex; 6]>,
    pub up: Option<[MeshVertex; 6]>,
    pub down: Option<[MeshVertex; 6]>,
}

impl BlockModelFaces {
    /// The vertices baked for face `d`, if any.
    pub open spec fn on(&self, d: Direction) -> Option<[MeshVertex; 6]> {
        match d {
            Direction::North => self.north,
            Direction::East => self.east,
            Direction::South => self.south,
            Direction::West => self.west,
            Direction::Up => self.up,
            Direction::Down => self.down,
        }
    }
}

/// The shape of a baked model: one full cube, which chunk meshing can treat
/// cheaply, or the faces of each element in declaration order.
#[derive(Debug)]
pub enum CubeOrComplexMesh {
    Cube(BlockModelFaces),
    Custom(Vec<BlockModelFaces>),
}

/// A baked block model, ready for chunk meshing.
#[derive(Debug)]
pub struct BlockstateVariantMesh {
    pub name: NamespacedResource,
    pub shape: CubeOrComplexMesh,
    pub transparent_or_complex: bool,
}

/// Why a model could not be baked.
#[derive(Clone, Copy, Debug, PartialEq, Eq, Structural)]
pub enum BakeError {
    /// The face texture of element `element` has no place in the atlas.
    ModelBakeFailed { element: usize, cause: UvError },
}

/// Whether face `d` of `el` has a texture that cannot be placed, and why.
pub open spec fn face_error(el: ModelElement, atlas: AtlasSnapshot, d: Direction) -> Option<UvError> {
    match el.face_textures.on(d) {
        None => None,
        Some(t) => match resolve(t, atlas) {
            Ok(_) => None,
            Err(e) => Some(e),
        },
    }
}

/// The first failure among the faces of `el`, taken in the order north,
/// east, south, west, up, down.
pub open spec fn element_error(el: ModelElement, atlas: AtlasSnapshot) -> Option<UvError> {
    if face_error(el, atlas, Direction::North) is Some {
        face_error(el, atlas, Direction::North)
    } else if face_error(el, atlas, Direction::East) is Some {
        face_error(el, atlas, Direction::East)
    } else if face_error(el, atlas, Direction::South) is Some {
        face_error(el, atlas, Direction::South)
    } else if face_error(el, atlas, Direction::West) is Some {
        face_error(el, atlas, Direction::West)
    } else if face_error(el, atlas, Direction::Up) is Some {
        face_error(el, atlas, Direction::Up)
    } else {
        face_error(el, atlas, Direction::Down)
    }
}

/// Face `d` of `faces` is what baking face `d` of `el` against `atlas` gives:
/// absent where `el` has no texture there, else the face's six vertices.
pub open spec fn face_baked(faces: BlockModelFaces, el: ModelElement, atlas: AtlasSnapshot, d: Direction) -> bool {
    match el.face_textures.on(d) {
        None => faces.on(d) is None,
        Some(t) => match resolve(t, atlas) {
            Ok(uv) => faces.on(d) is Some && faces.on(d)->Some_0@ == face_vertices(el.from, el.to, uv, d),
            Err(_) => false,
        },
    }
}

/// `faces` is the bake of every face of `el` against `atlas`.
pub open spec fn element_baked(faces: BlockModelFaces, el: ModelElement, atlas: AtlasSnapshot) -> bool {
    forall|d: Direction| #[trigger] face_baked(faces, el, atlas, d)
}

/// The model is a single element spanning the whole block.
pub open spec fn spans_unit_cube(elements: Seq<ModelElement>) -> bool {
    elements.len() == 1 && elements[0].from == Point3 { x: 0, y: 0, z: 0 } && elements[0].to
        == Point3 { x: BLOCK_UNIT, y: BLOCK_UNIT, z: BLOCK_UNIT }
}

/// Whether some element before index `n` fails to bake.
pub open spec fn fails_before(elements: Seq<ModelElement>, atlas: AtlasSnapshot, n: int) -> bool {
    exists|i: int| 0 <= i < n && (#[trigger] element_error(elements[i], atlas)) is Some
}


/// Where a face's texture lands in the atlas, if the face has a texture.
fn place_face(tex: &Option<FaceTexture>, atlas: &AtlasSnapshot) -> (r: Result<Option<AtlasUv>, UvError>)
    requires
        atlas.wf(),
    ensures
        match *tex {
            None => r == Ok::<Option<AtlasUv>, UvError>(None),
            Some(t) => match resolve(t, *atlas) {
                Ok(uv) => r == Ok::<Option<AtlasUv>, UvError>(Some(uv)),
                Err(e) => r == Err::<Option<AtlasUv>, UvError>(e),
            },
        },
{
    match tex {
        None => Ok(None),
        Some(t) => match BlockstateVariantMesh::absolute_atlas_uv(t, atlas) {
            Ok(uv) => Ok(Some(uv)),
            Err(e) => Err(e),
        },
    }
}

/// The vertices of face `d`, where it has a place in the atlas.
fn face_if_placed(el: &ModelElement, uv: Option<AtlasUv>, d: Direction) -> (r: Option<[MeshVertex; 6]>)
    ensures
        match uv {
            None => r is None,
            Some(uv) => r is Some && r->Some_0@ == face_vertices(el.from, el.to, uv, d),
        },
{
    match uv {
        None => None,
        Some(uv) => Some(bake_face(el.from, el.to, uv, d)),
    }
}

/// Bakes the faces of one cuboid against `atlas`. Fails with the first face,
/// in the order north, east, south, west, up, down, whose texture is a tag
/// or is missing from the atlas.
pub fn bake_element(el: &ModelElement, atlas: &AtlasSnapshot) -> (r: Result<BlockModelFaces, UvError>)
    requires
        atlas.wf(),
    ensures
        match element_error(*el, *atlas) {
            Some(e) => r == Err::<BlockModelFaces, UvError>(e),
            None => r is Ok && element_baked(r->Ok_0, *el, *atlas),
        },
        r is Ok ==> forall|d: Direction|
            (#[trigger] el.face_textures.on(d)) is None ==> r->Ok_0.on(d) is None,
{
    let north = match place_face(&el.face_textures.north, atlas) {
        Ok(uv) => uv,
        Err(e) => return Err(e),
    };
    let east = match place_face(&el.face_textures.east, atlas) {
        Ok(uv) => uv,
        Err(e) => return Err(e),
    };
    let south = match place_face(&el.face_textures.south, atlas) {
        Ok(uv) => uv,
        Err(e) => return Err(e),
    };
    let west = match place_face(&el.face_textures.west, atlas) {
        Ok(uv) => uv,
        Err(e) => return Err(e),
    };
    let up = match place_face(&el.face_textures.up, atlas) {
        Ok(uv) => uv,
        Err(e) => return Err(e),
    };
    let down = match place_face(&el.face_textures.down, atlas) {
        Ok(uv) => uv,
        Err(e) => return Err(e),
    };
    let faces = BlockModelFaces {
        north: face_if_placed(el, north, Direction::North),
        east: face_if_placed(el, east, Direction::East),
        south: face_if_placed(el, south, Direction::South),
        west: face_if_placed(el, west, Direction::West),
        up: face_if_placed(el, up, Direction::Up),
        down: face_if_placed(el, down, Direction::Down),
    };
    assert forall|d: Direction| #[trigger] face_baked(faces, *el, *atlas, d) by {
        match d {
            Direction::North => {},
            Direction::East => {},
            Direction::South => {},
            Direction::West => {},
            Direction::Up => {},
            Direction::Down => {},
        }
    }
    Ok(faces)
}

/// Whether the model is a single element spanning the whole block.
pub fn is_unit_cube(model: &BlockModel) -> (r: bool)
    ensures
        r == spans_unit_cube(model.elements@),
{
    if model.elements.len() != 1 {
        return false;
    }
    let first = &model.elements[0];
    first.from.x == 0 && first.from.y == 0 && first.from.z == 0 && first.to.x == BLOCK_UNIT
        && first.to.y == BLOCK_UNIT && first.to.z == BLOCK_UNIT
}

impl BlockstateVariantMesh {
    /// Where the texture of `face` lands in the atlas: the placement of the
    /// texture offset by each corner of the face's own rectangle. Fails when
    /// the texture is a tag, or when the atlas has no entry for it.
    pub fn absolute_atlas_uv(face: &FaceTexture, atlas: &AtlasSnapshot) -> (r: Result<AtlasUv, UvError>)
        requires
            atlas.wf(),
        ensures
            r == resolve(*face, *atlas),
    {
        let texture = match &face.texture {
            TagOrResource::Tag(_) => return Err(UvError::UnresolvedTextureReference),
            TagOrResource::Resource(res) => res,
        };
        let placement = match atlas.lookup(texture) {
            None => return Err(UvError::AtlasLookupMiss),
            Some(p) => p,
        };
        let local = face.uv;
        Ok(AtlasUv {
            from: AtlasCoord {
                u: placement.from.u as u64 + local.from.u as u64,
                v: placement.from.v as u64 + local.from.v as u64,
            },
            to: AtlasCoord {
                u: placement.from.u as u64 + local.to.u as u64,
                v: placement.from.v as u64 + local.to.v as u64,
            },
        })
    }

    /// Bakes every element of `model` against one atlas snapshot, in
    /// declaration order. A model that is one element spanning the whole
    /// block becomes a `Cube`; any other becomes a `Custom` list. Fails at the
    /// first element with a face whose texture is a tag or missing from the
    /// atlas, with no partial result. No texture counts as transparent here,
    /// so only a `Custom` shape is flagged.
    pub fn bake_block_model(model: &BlockModel, atlas: &AtlasSnapshot) -> (r: Result<Self, BakeError>)
        requires
            atlas.wf(),
        ensures
            r is Err <==> fails_before(model.elements@, *atlas, model.elements@.len() as int),
            match r {
                Err(BakeError::ModelBakeFailed { element, cause }) => element < model.elements@.len()
                    && element_error(model.elements@[element as int], *atlas) == Some(cause)
                    && !fails_before(model.elements@, *atlas, element as int),
                Ok(m) => baked_model(m, *model, *atlas)
                    && m.transparent_or_complex == !spans_unit_cube(model.elements@),
            },
            (exists|i: int, d: Direction|
                0 <= i < model.elements@.len() && (#[trigger] model.elements@[i].face_textures.on(d))
                    is Some && model.elements@[i].face_textures.on(d)->Some_0.texture is Tag) ==> r is Err,
    {
        let opaque = |_el: &ModelElement| -> (t: bool)
            ensures
                !t,
            { false };
        let r = Self::bake_block_model_with(model, atlas, opaque);
        proof {
            if r is Ok {
                let flags = choose|flags: Seq<bool>| transparency_flags(opaque, model.elements@, flags)
                    && r->Ok_0.transparent_or_complex == (!spans_unit_cube(model.elements@) || flags.contains(true));
                if flags.contains(true) {
                    let k = choose|k: int| 0 <= k < flags.len() && flags[k] == true;
                    assert(opaque.ensures((&model.elements@[k],), flags[k]));
                }
            }
        }
        r
    }

    /// As `bake_block_model`, with `is_transparent` deciding which elements
    /// have a transparent texture: the mesh is flagged when its shape is not
    /// a single cube or when some element is transparent. The predicate is
    /// asked once for each element, in order, after every element has baked.
    pub fn bake_block_model_with<F: Fn(&ModelElement) -> bool>(
        model: &BlockModel,
        atlas: &AtlasSnapshot,
        is_transparent: F,
    ) -> (r: Result<Self, BakeError>)
        requires
            atlas.wf(),
            forall|el: &ModelElement| #[trigger] is_transparent.requires((el,)),
        ensures
            r is Err <==> fails_before(model.elements@, *atlas, model.elements@.len() as int),
            match r {
                Err(BakeError::ModelBakeFailed { element, cause }) => element < model.elements@.len()
                    && element_error(model.elements@[element as int], *atlas) == Some(cause)
                    && !fails_before(model.elements@, *atlas, element as int),
                Ok(m) => baked_model(m, *model, *atlas) && exists|flags: Seq<bool>|
                    transparency_flags(is_transparent, model.elements@, flags)
                        && m.transparent_or_complex == (!spans_unit_cube(model.elements@)
                        || flags.contains(true)),
            },
            (exists|i: int, d: Direction|
                0 <= i < model.elements@.len() && (#[trigger] model.elements@[i].face_textures.on(d))
                    is Some && model.elements@[i].face_textures.on(d)->Some_0.texture is Tag) ==> r is Err,
    {
        let cube = is_unit_cube(model);
        let n = model.elements.len();
        let mut results: Vec<BlockModelFaces> = Vec::new();
        let mut i: usize = 0;
        while i < n
            invariant
                n == model.elements@.len(),
                atlas.wf(),
                i <= n,
                results@.len() == i,
                forall|j: int| 0 <= j < i ==> element_baked(#[trigger] results@[j], model.elements@[j], *atlas),
                !fails_before(model.elements@, *atlas, i as int),
            decreases n - i,
        {
            match bake_element(&model.elements[i], atlas) {
                Ok(faces) => {
                    results.push(faces);
                },
                Err(cause) => {
                    return Err(BakeError::ModelBakeFailed { element: i, cause });
                },
            }
            assert(!fails_before(model.elements@, *atlas, i + 1)) by {
                if fails_before(model.elements@, *atlas, i + 1) {
                    let j = choose|j: int| 0 <= j < i + 1 && (#[trigger] element_error(model.elements@[j], *atlas)) is Some;
                    assert(j != i);
                }
            }
            i = i + 1;
        }
        proof {
            if exists|i: int, d: Direction|
                0 <= i < model.elements@.len() && (#[trigger] model.elements@[i].face_textures.on(d))
                    is Some && model.elements@[i].face_textures.on(d)->Some_0.texture is Tag {
                let (k, d) = choose|i: int, d: Direction|
                    0 <= i < model.elements@.len() && (#[trigger] model.elements@[i].face_textures.on(d))
                        is Some && model.elements@[i].face_textures.on(d)->Some_0.texture is Tag;
                lemma_face_error_fails_element(model.elements@[k], *atlas, d);
            }
        }
        let mut transparent = false;
        let ghost mut flags: Seq<bool> = Seq::empty();
        let mut k: usize = 0;
        while k < n
            invariant
                n == model.elements@.len(),
                k <= n,
                forall|el: &ModelElement| #[trigger] is_transparent.requires((el,)),
                flags.len() == k,
                forall|j: int| 0 <= j < k ==> is_transparent.ensures((&model.elements@[j],), #[trigger] flags[j]),
                transparent == flags.contains(true),
            decreases n - k,
        {
            let t = is_transparent(&model.elements[k]);
            proof {
                let old_flags = flags;
                flags = flags.push(t);
                if old_flags.contains(true) {
                    let w = choose|w: int| 0 <= w < old_flags.len() && old_flags[w] == true;
                    assert(flags[w] == true);
                }
                if flags.contains(true) && !t {
                    let w = choose|w: int| 0 <= w < flags.len() && flags[w] == true;
                    assert(old_flags[w] == true);
                }
                if t {
                    assert(flags[k as int] == true);
                }
            }
            transparent = transparent || t;
            k = k + 1;
        }
        assert(transparency_flags(is_transparent, model.elements@, flags));
        let name = model.id.duplicate();
        let shape = if cube {
            let f = results.pop().unwrap();
            CubeOrComplexMesh::Cube(f)
        } else {
            CubeOrComplexMesh::Custom(results)
        };
        Ok(BlockstateVariantMesh { name, shape, transparent_or_complex: !cube || transparent })
    }
}

/// `flags` holds, for each element in order, an answer that `is_transparent`
/// may give for it.
pub open spec fn transparency_flags<F: Fn(&ModelElement) -> bool>(
    is_transparent: F,
    elements: Seq<ModelElement>,
    flags: Seq<bool>,
) -> bool {
    flags.len() == elements.len() && forall|j: int|
        0 <= j < elements.len() ==> is_transparent.ensures((&elements[j],), #[trigger] flags[j])
}

/// `m` carries the name of `model` and the bake of its elements against `atlas`.
pub open spec fn baked_model(m: BlockstateVariantMesh, model: BlockModel, atlas: AtlasSnapshot) -> bool {
    let els = model.elements@;
    &&& m.name == model.id
    &&& match m.shape {
        CubeOrComplexMesh::Cube(f) => spans_unit_cube(els) && element_baked(f, els[0], atlas),
        CubeOrComplexMesh::Custom(v) => !spans_unit_cube(els) && v@.len() == els.len()
            && forall|i: int| 0 <= i < els.len() ==> element_baked(#[trigger] v@[i], els[i], atlas),
    }
}

/// A face with no texture is absent from a baked element.
pub proof fn lemma_untextured_face_absent(faces: BlockModelFaces, el: ModelElement, atlas: AtlasSnapshot, d: Direction)
    requires
        element_baked(faces, el, atlas),
        el.face_textures.on(d) is None,
    ensures
        faces.on(d) is None,
{
    assert(face_baked(faces, el, atlas, d));
}

/// A baked model is a `Cube` exactly when it is one element spanning the
/// whole block, whatever its textures; with two or more elements, or one
/// that leaves part of the block empty, it is `Custom`.
pub proof fn lemma_shape_follows_bounds(m: BlockstateVariantMesh, model: BlockModel, atlas: AtlasSnapshot)
    requires
        baked_model(m, model, atlas),
    ensures
        m.shape is Cube <==> spans_unit_cube(model.elements@),
        model.elements@.len() != 1 ==> m.shape is Custom,
        (model.elements@.len() == 1 && (model.elements@[0].from != Point3 { x: 0, y: 0, z: 0 }
            || model.elements@[0].to != Point3 { x: BLOCK_UNIT, y: BLOCK_UNIT, z: BLOCK_UNIT }))
            ==> m.shape is Custom,
{
}

/// A bake depends on the atlas only through the placements it records: two
/// snapshots that agree on every texture give the same failures and accept
/// the same baked meshes.
pub proof fn lemma_bake_reads_only_placements(
    m: BlockstateVariantMesh,
    model: BlockModel,
    s1: AtlasSnapshot,
    s2: AtlasSnapshot,
)
    requires
        forall|k: (Seq<char>, Seq<char>)| #[trigger] s1.placement(k) == s2.placement(k),
    ensures
        forall|i: int| 0 <= i < model.elements@.len() ==> #[trigger] element_error(model.elements@[i], s1)
            == element_error(model.elements@[i], s2),
        baked_model(m, model, s1) == baked_model(m, model, s2),
{
    assert forall|t: FaceTexture| #[trigger] resolve(t, s1) == resolve(t, s2) by {
        if let TagOrResource::Resource(res) = t.texture {
            assert(s1.placement(res.key()) == s2.placement(res.key()));
        }
    }
    assert forall|f: BlockModelFaces, el: ModelElement| #[trigger] element_baked(f, el, s1) == element_baked(f, el, s2) by {
        assert forall|d: Direction| #[trigger] face_baked(f, el, s1, d) == face_baked(f, el, s2, d) by {
            if let Some(t) = el.face_textures.on(d) {
                assert(resolve(t, s1) == resolve(t, s2));
            }
        }
        if element_baked(f, el, s1) {
            assert forall|d: Direction| #[trigger] face_baked(f, el, s2, d) by {
                assert(face_baked(f, el, s1, d));
            }
        }
        if element_baked(f, el, s2) {
            assert forall|d: Direction| #[trigger] face_baked(f, el, s1, d) by {
                assert(face_baked(f, el, s2, d));
            }
        }
    }
}

/// A face that cannot be placed makes its element fail.
pub proof fn lemma_face_error_fails_element(el: ModelElement, atlas: AtlasSnapshot, d: Direction)
    requires
        face_error(el, atlas, d) is Some,
    ensures
        element_error(el, atlas) is Some,
{
}

} // verus!
