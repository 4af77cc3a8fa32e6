use vstd::prelude::*;
use crate::model::{Point3, FaceTexture, Direction, ModelElement, BLOCK_UNIT};
use crate::atlas::{AtlasCoord, AtlasUv, AtlasSnapshot};

verus! {

/// A vertex position in block-local space, in units of `1 / BLOCK_UNIT` of
/// a block, with the X axis already mirrored for the renderer.
#[derive(Clone, Copy, Debug, PartialEq, Eq, Structural)]
pub struct Position {
    pub x: i64,
    pub y: i64,
    pub z: i64,
}

/// A face normal: a unit vector along one axis.
#[derive(Clone, Copy, Debug, PartialEq, Eq, Structural)]
pub struct Normal {
    pub x: i8,
    pub y: i8,
    pub z: i8,
}

/// One vertex of a baked face.
#[derive(Clone, Copy, Debug, PartialEq, Eq, Structural)]
pub struct MeshVertex {
    pub position: Position,
    pub tex_coords: AtlasCoord,
    pub normal: Normal,
}

/// The eight corners of a cuboid. `A` is the low corner on every axis;
/// `B`, `C`, `F` and `G` take the high X bound, `C`, `D`, `G` and `H` the
/// high Y bound, and `E` to `H` the high Z bound.
#[derive(Clone, Copy, Debug, PartialEq, Eq, Structural)]
pub enum Corner {
    A,
    B,
    C,
    D,
    E,
    F,
    G,
    H,
}

/// One entry of a face's vertex table: the corner a vertex sits on, and
/// which corner of the face's atlas rectangle it samples (`u_to`: the U of
/// `to` rather than of `from`; likewise `v_to`).
#[derive(Clone, Copy, Debug, PartialEq, Eq, Structural)]
pub struct VertexSlot {
    pub corner: Corner,
    pub u_to: bool,
    pub v_to: bool,
}

/// Whether a corner takes the high bound on the X, Y and Z axes.
pub open spec fn corner_bounds(c: Corner) -> (bool, bool, bool) {
    match c {
        Corner::A => (false, false, false),
        Corner::B => (true, false, false),
        Corner::C => (true, true, false),
        Corner::D => (false, true, false),
        Corner::E => (false, false, true),
        Corner::F => (true, false, true),
        Corner::G => (true, true, true),
        Corner::H => (false, true, true),
    }
}

/// The position of corner `c` of the box `from`..`to`, X mirrored.
pub open spec fn corner_position(from: Point3, to: Point3, c: Corner) -> Position {
    let (hx, hy, hz) = corner_bounds(c);
    Position {
        x: (BLOCK_UNIT - (if hx { to.x } else { from.x })) as i64,
        y: (if hy { to.y } else { from.y }) as i64,
        z: (if hz { to.z } else { from.z }) as i64,
    }
}

/// The atlas point that a slot samples from the rectangle `uv`.
pub open spec fn slot_tex_coords(uv: AtlasUv, s: VertexSlot) -> AtlasCoord {
    AtlasCoord {
        u: if s.u_to { uv.to.u } else { uv.from.u },
        v: if s.v_to { uv.to.v } else { uv.from.v },
    }
}

/// The table entry for `corner` sampling the given rectangle corner.
pub open spec fn vs(corner: Corner, u_to: bool, v_to: bool) -> VertexSlot {
    VertexSlot { corner, u_to, v_to }
}

/// The two triangles of each face: six slots, in emission order.
pub open spec fn face_slots(d: Direction) -> Seq<VertexSlot> {
    match d {
        Direction::South => seq![
            vs(Corner::E, true, true), vs(Corner::H, true, false), vs(Corner::F, false, true),
            vs(Corner::H, true, false), vs(Corner::G, false, false), vs(Corner::F, false, true),
        ],
        Direction::West => seq![
            vs(Corner::G, true, false), vs(Corner::B, false, true), vs(Corner::F, true, true),
            vs(Corner::C, false, false), vs(Corner::B, false, true), vs(Corner::G, true, false),
        ],
        Direction::North => seq![
            vs(Corner::C, true, false), vs(Corner::A, false, true), vs(Corner::B, true, true),
            vs(Corner::D, false, false), vs(Corner::A, false, true), vs(Corner::C, true, false),
        ],
        Direction::East => seq![
            vs(Corner::E, false, true), vs(Corner::A, true, true), vs(Corner::D, true, false),
            vs(Corner::D, true, false), vs(Corner::H, false, false), vs(Corner::E, false, true),
        ],
        Direction::Up => seq![
            vs(Corner::G, true, false), vs(Corner::H, false, false), vs(Corner::D, false, true),
            vs(Corner::C, true, true), vs(Corner::G, true, false), vs(Corner::D, false, true),
        ],
        Direction::Down => seq![
            vs(Corner::F, false, true), vs(Corner::B, false, false), vs(Corner::A, true, false),
            vs(Corner::F, false, true), vs(Corner::A, true, false), vs(Corner::E, true, true),
        ],
    }
}

/// The normal shared by every vertex of a face.
pub open spec fn face_normal(d: Direction) -> Normal {
    match d {
        Direction::South => Normal { x: 0, y: 0, z: -1i8 },
        Direction::West => Normal { x: -1i8, y: 0, z: 0 },
        Direction::North => Normal { x: 0, y: 0, z: 1 },
        Direction::East => Normal { x: 1, y: 0, z: 0 },
        Direction::Up => Normal { x: 1, y: 0, z: 0 },
        Direction::Down => Normal { x: 0, y: -1i8, z: 0 },
    }
}

/// The vertex that slot `s` of face `d` gives for the box `from`..`to`.
pub open spec fn slot_vertex(from: Point3, to: Point3, uv: AtlasUv, d: Direction, s: VertexSlot) -> MeshVertex {
    MeshVertex {
        position: corner_position(from, to, s.corner),
        tex_coords: slot_tex_coords(uv, s),
        normal: face_normal(d),
    }
}

/// The six vertices of face `d` of the box `from`..`to`, textured with `uv`.
pub open spec fn face_vertices(from: Point3, to: Point3, uv: AtlasUv, d: Direction) -> Seq<MeshVertex> {
    face_slots(d).map_values(|s: VertexSlot| slot_vertex(from, to, uv, d, s))
}

/// The vertex table of face `d`.
pub fn face_layout(d: Direction) -> (r: [VertexSlot; 6])
    ensures
        r@ == face_slots(d),
{
    let r = match d {
        Direction::South => [
            slot(Corner::E, true, true), slot(Corner::H, true, false), slot(Corner::F, false, true),
            slot(Corner::H, true, false), slot(Corner::G, false, false), slot(Corner::F, false, true),
        ],
        Direction::West => [
            slot(Corner::G, true, false), slot(Corner::B, false, true), slot(Corner::F, true, true),
            slot(Corner::C, false, false), slot(Corner::B, false, true), slot(Corner::G, true, false),
        ],
        Direction::North => [
            slot(Corner::C, true, false), slot(Corner::A, false, true), slot(Corner::B, true, true),
            slot(Corner::D, false, false), slot(Corner::A, false, true), slot(Corner::C, true, false),
        ],
        Direction::East => [
            slot(Corner::E, false, true), slot(Corner::A, true, true), slot(Corner::D, true, false),
            slot(Corner::D, true, false), slot(Corner::H, false, false), slot(Corner::E, false, true),
        ],
        Direction::Up => [
            slot(Corner::G, true, false), slot(Corner::H, false, false), slot(Corner::D, false, true),
            slot(Corner::C, true, true), slot(Corner::G, true, false), slot(Corner::D, false, true),
        ],
        Direction::Down => [
            slot(Corner::F, false, true), slot(Corner::B, false, false), slot(Corner::A, true, false),
            slot(Corner::F, false, true), slot(Corner::A, true, false), slot(Corner::E, true, true),
        ],
    };
    assert(r@ =~= face_slots(d));
    r
}

fn slot(corner: Corner, u_to: bool, v_to: bool) -> (r: VertexSlot)
    ensures
        r == vs(corner, u_to, v_to),
{
    VertexSlot { corner, u_to, v_to }
}


/// The normal of face `d`.
pub fn normal_of(d: Direction) -> (r: Normal)
    ensures
        r == face_normal(d),
{
    match d {
        Direction::South => Normal { x: 0, y: 0, z: -1i8 },
        Direction::West => Normal { x: -1i8, y: 0, z: 0 },
        Direction::North => Normal { x: 0, y: 0, z: 1 },
        Direction::East => Normal { x: 1, y: 0, z: 0 },
        Direction::Up => Normal { x: 1, y: 0, z: 0 },
        Direction::Down => Normal { x: 0, y: -1i8, z: 0 },
    }
}

/// The position of corner `c` of the box `from`..`to`, X mirrored.
pub fn corner_of(from: Point3, to: Point3, c: Corner) -> (r: Position)
    ensures
        r == corner_position(from, to, c),
{
    let hx = matches!(c, Corner::B | Corner::C | Corner::F | Corner::G);
    let hy = matches!(c, Corner::C | Corner::D | Corner::G | Corner::H);
    let hz = matches!(c, Corner::E | Corner::F | Corner::G | Corner::H);
    let x: i32 = if hx { to.x } else { from.x };
    let y: i32 = if hy { to.y } else { from.y };
    let z: i32 = if hz { to.z } else { from.z };
    Position { x: BLOCK_UNIT as i64 - x as i64, y: y as i64, z: z as i64 }
}

fn vertex_of(from: Point3, to: Point3, uv: AtlasUv, d: Direction, s: VertexSlot) -> (r: MeshVertex)
    ensures
        r == slot_vertex(from, to, uv, d, s),
{
    MeshVertex {
        position: corner_of(from, to, s.corner),
        tex_coords: AtlasCoord {
            u: if s.u_to { uv.to.u } else { uv.from.u },
            v: if s.v_to { uv.to.v } else { uv.from.v },
        },
        normal: normal_of(d),
    }
}

/// The two triangles of face `d` of the box `from`..`to`, textured with the
/// atlas rectangle `uv`.
pub fn bake_face(from: Point3, to: Point3, uv: AtlasUv, d: Direction) -> (r: [MeshVertex; 6])
    ensures
        r@ == face_vertices(from, to, uv, d),
{
    let t = face_layout(d);
    let r = [
        vertex_of(from, to, uv, d, t[0]),
        vertex_of(from, to, uv, d, t[1]),
        vertex_of(from, to, uv, d, t[2]),
        vertex_of(from, to, uv, d, t[3]),
        vertex_of(from, to, uv, d, t[4]),
        vertex_of(from, to, uv, d, t[5]),
    ];
    assert(r@ =~= face_vertices(from, to, uv, d));
    r
}

} // verus!
