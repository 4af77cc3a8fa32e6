use vstd::prelude::*;

verus! {

/// Units per block edge: a cuboid spanning the whole block goes from 0 to this.
pub const BLOCK_UNIT: i32 = 16;

/// A point in block-local space, in units of `1 / BLOCK_UNIT` of a block.
#[derive(Clone, Copy, Debug, PartialEq, Eq, Structural)]
pub struct Point3 {
    pub x: i32,
    pub y: i32,
    pub z: i32,
}

/// A texture coordinate, in pixels.
#[derive(Clone, Copy, Debug, PartialEq, Eq, Structural)]
pub struct Texel {
    pub u: u32,
    pub v: u32,
}

/// A rectangle of texture space given by two opposite corners.
#[derive(Clone, Copy, Debug, PartialEq, Eq, Structural)]
pub struct UvRect {
    pub from: Texel,
    pub to: Texel,
}

/// A resource identifier such as `minecraft:block/stone`.
#[derive(Debug)]
pub struct NamespacedResource {
    pub namespace: String,
    pub path: String,
}

impl NamespacedResource {
    /// The identifier as a pair of character sequences.
    pub open spec fn key(&self) -> (Seq<char>, Seq<char>) {
        (self.namespace@, self.path@)
    }

    /// A copy that is equal, field for field, to `self`.
    pub fn duplicate(&self) -> (r: NamespacedResource)
        ensures
            r == *self,
    {
        NamespacedResource { namespace: self.namespace.clone(), path: self.path.clone() }
    }

    /// Whether two identifiers name the same resource.
    pub fn same_as(&self, other: &NamespacedResource) -> (r: bool)
        ensures
            r == (self.key() == other.key()),
    {
        let a = self.namespace == other.namespace;
        let b = self.path == other.path;
        proof {
            if a && b {
                assert(self.key() == other.key());
            }
        }
        a && b
    }
}

/// A texture reference: either a tag, which names a group or a variable and
/// still needs resolving, or a concrete resource.
#[derive(Debug)]
pub enum TagOrResource {
    Tag(NamespacedResource),
    Resource(NamespacedResource),
}

/// The texture of one face: which texture, and which part of it.
#[derive(Debug)]
pub struct FaceTexture {
    pub texture: TagOrResource,
    pub uv: UvRect,
}

/// The six faces of a cuboid.
#[derive(Clone, Copy, Debug, PartialEq, Eq, Structural)]
pub enum Direction {
    North,
    East,
    South,
    West,
    Up,
    Down,
}

/// The textures that a cuboid declares, one optional entry per face.
#[derive(Debug)]
pub struct ElementFaceTextures {
    pub north: Option<FaceTexture>,
    pub east: Option<FaceTexture>,
    pub south: Option<FaceTexture>,
    pub west: Option<FaceTexture>,
    pub up: Option<FaceTexture>,
    pub down: Option<FaceTexture>,
}

impl ElementFaceTextures {
    /// The texture declared for the face `d`.
    pub open spec fn on(&self, d: Direction) -> Option<FaceTexture> {
        match d {
            Direction::North => self.north,
            Direction::East => self.east,
            Direction::South => self.south,
            Direction::West => self.west,
            Direction::Up => self.up,
            Direction::Down => self.down,
        }
    }
}

/// One axis-aligned box of a block model.
#[derive(Debug)]
pub struct ModelElement {
    pub from: Point3,
    pub to: Point3,
    pub face_textures: ElementFaceTextures,
}

/// A block model: its identifier and its cuboids, in declaration order.
#[derive(Debug)]
pub struct BlockModel {
    pub id: NamespacedResource,
    pub elements: Vec<ModelElement>,
}

} // verus!
