//! Bakes static block geometry: turns a block model made of axis-aligned
//! cuboid elements, with a texture per face, into renderer-ready vertices
//! whose texture coordinates point into a shared texture atlas.
//!
//! All coordinates are exact integers. A block spans `BLOCK_UNIT` units on
//! each axis, and atlas coordinates are counted in atlas pixels; a renderer
//! divides them by `BLOCK_UNIT` and `ATLAS_DIMENSIONS` respectively.

pub mod model;
pub mod atlas;
pub mod mesh;
pub mod bake;

pub use model::{
    Point3, Texel, UvRect, NamespacedResource, TagOrResource, FaceTexture, Direction,
    ElementFaceTextures, ModelElement, BlockModel, BLOCK_UNIT,
};
pub use atlas::{AtlasCoord, AtlasUv, UvError, AtlasEntry, AtlasSnapshot, ATLAS_DIMENSIONS};
pub use mesh::{
    Position, Normal, MeshVertex, Corner, VertexSlot, face_layout, normal_of, corner_of, bake_face,
};
pub use bake::{
    BlockModelFaces, CubeOrComplexMesh, BlockstateVariantMesh, BakeError, bake_element,
    is_unit_cube,
};
