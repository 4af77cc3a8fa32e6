use block_model::{
    AtlasCoord, AtlasSnapshot, AtlasUv, BakeError, BlockModel, BlockModelFaces,
    BlockstateVariantMesh, CubeOrComplexMesh, Direction, ElementFaceTextures, FaceTexture,
    MeshVertex, ModelElement, NamespacedResource, Normal, Point3, Position, TagOrResource, Texel,
    UvError, UvRect, ATLAS_DIMENSIONS, BLOCK_UNIT,
};

fn res(path: &str) -> NamespacedResource {
    NamespacedResource { namespace: "minecraft".to_string(), path: path.to_string() }
}

fn rect(fu: u32, fv: u32, tu: u32, tv: u32) -> UvRect {
    UvRect { from: Texel { u: fu, v: fv }, to: Texel { u: tu, v: tv } }
}

fn face(path: &str) -> Option<FaceTexture> {
    Some(FaceTexture { texture: TagOrResource::Resource(res(path)), uv: rect(0, 0, 16, 16) })
}

fn tag_face(name: &str) -> Option<FaceTexture> {
    Some(FaceTexture { texture: TagOrResource::Tag(res(name)), uv: rect(0, 0, 16, 16) })
}

fn no_faces() -> ElementFaceTextures {
    ElementFaceTextures { north: None, east: None, south: None, west: None, up: None, down: None }
}

fn all_faces() -> ElementFaceTextures {
    ElementFaceTextures {
        north: face("block/north"),
        east: face("block/east"),
        south: face("block/south"),
        west: face("block/west"),
        up: face("block/up"),
        down: face("block/down"),
    }
}

fn p(x: i32, y: i32, z: i32) -> Point3 {
    Point3 { x, y, z }
}

fn element(from: Point3, to: Point3, faces: ElementFaceTextures) -> ModelElement {
    ModelElement { from, to, face_textures: faces }
}

fn model(elements: Vec<ModelElement>) -> BlockModel {
    BlockModel { id: res("block/test"), elements }
}

/// Each face texture gets its own cell, so that every vertex shows which
/// corner of which cell it samples.
fn atlas() -> AtlasSnapshot {
    let mut a = AtlasSnapshot::new();
    a.insert(res("block/north"), rect(0, 0, 16, 16));
    a.insert(res("block/east"), rect(16, 0, 32, 16));
    a.insert(res("block/south"), rect(32, 0, 48, 16));
    a.insert(res("block/west"), rect(48, 0, 64, 16));
    a.insert(res("block/up"), rect(0, 16, 16, 32));
    a.insert(res("block/down"), rect(16, 16, 32, 32));
    a
}

fn v(pos: (i64, i64, i64), uv: (u64, u64), n: (i8, i8, i8)) -> MeshVertex {
    MeshVertex {
        position: Position { x: pos.0, y: pos.1, z: pos.2 },
        tex_coords: AtlasCoord { u: uv.0, v: uv.1 },
        normal: Normal { x: n.0, y: n.1, z: n.2 },
    }
}

fn faces_of(m: &BlockstateVariantMesh) -> &BlockModelFaces {
    match &m.shape {
        CubeOrComplexMesh::Cube(f) => f,
        CubeOrComplexMesh::Custom(_) => panic!("expected a cube"),
    }
}

#[test]
fn atlas_uv_offsets_both_corners_by_the_cell_origin() {
    let a = atlas();
    let f = FaceTexture {
        texture: TagOrResource::Resource(res("block/west")),
        uv: rect(2, 3, 14, 15),
    };
    let uv = BlockstateVariantMesh::absolute_atlas_uv(&f, &a).unwrap();
    assert_eq!(uv, AtlasUv { from: AtlasCoord { u: 50, v: 3 }, to: AtlasCoord { u: 62, v: 15 } });
    let atlas_side = ATLAS_DIMENSIONS as f32;
    assert_eq!(uv.from.u as f32 / atlas_side, (48.0f32 + 2.0) / atlas_side);
    assert_eq!(uv.to.v as f32 / atlas_side, (0.0f32 + 15.0) / atlas_side);
}

#[test]
fn atlas_uv_keeps_a_flipped_rectangle_flipped() {
    let a = atlas();
    let f = FaceTexture { texture: TagOrResource::Resource(res("block/up")), uv: rect(16, 16, 0, 0) };
    let uv = BlockstateVariantMesh::absolute_atlas_uv(&f, &a).unwrap();
    assert_eq!(uv, AtlasUv { from: AtlasCoord { u: 16, v: 32 }, to: AtlasCoord { u: 0, v: 16 } });
}

#[test]
fn atlas_uv_rejects_a_tag() {
    let f = tag_face("all").unwrap();
    assert_eq!(
        BlockstateVariantMesh::absolute_atlas_uv(&f, &atlas()),
        Err(UvError::UnresolvedTextureReference)
    );
}

#[test]
fn atlas_uv_fails_on_a_missing_texture() {
    let f = face("block/missing").unwrap();
    assert_eq!(BlockstateVariantMesh::absolute_atlas_uv(&f, &atlas()), Err(UvError::AtlasLookupMiss));
}

#[test]
fn atlas_insert_replaces_an_earlier_placement() {
    let mut a = atlas();
    assert_eq!(a.lookup(&res("block/east")), Some(rect(16, 0, 32, 16)));
    a.insert(res("block/east"), rect(64, 64, 80, 80));
    assert_eq!(a.lookup(&res("block/east")), Some(rect(64, 64, 80, 80)));
    assert_eq!(a.lookup(&res("block/north")), Some(rect(0, 0, 16, 16)));
    assert_eq!(AtlasSnapshot::new().lookup(&res("block/north")), None);
}

#[test]
fn faces_without_texture_are_absent() {
    let mut faces = no_faces();
    faces.up = face("block/up");
    let m = BlockstateVariantMesh::bake_block_model(
        &model(vec![element(p(0, 0, 0), p(BLOCK_UNIT, BLOCK_UNIT, BLOCK_UNIT), faces)]),
        &atlas(),
    )
    .unwrap();
    let f = faces_of(&m);
    assert!(f.up.is_some());
    assert!(f.north.is_none() && f.east.is_none() && f.south.is_none());
    assert!(f.west.is_none() && f.down.is_none());
}

#[test]
fn element_without_any_texture_bakes_to_nothing() {
    let f = block_model::bake_element(&element(p(0, 0, 0), p(8, 8, 8), no_faces()), &atlas()).unwrap();
    assert!(f.north.is_none() && f.east.is_none() && f.south.is_none());
    assert!(f.west.is_none() && f.up.is_none() && f.down.is_none());
}

#[test]
fn full_cube_bakes_the_whole_vertex_table() {
    let m = BlockstateVariantMesh::bake_block_model(
        &model(vec![element(p(0, 0, 0), p(16, 16, 16), all_faces())]),
        &atlas(),
    )
    .unwrap();
    assert_eq!(m.name.path, "block/test");
    assert!(!m.transparent_or_complex);
    let f = faces_of(&m);
    // Corners with X mirrored: a (16,0,0) b (0,0,0) c (0,16,0) d (16,16,0)
    // e (16,0,16) f (0,0,16) g (0,16,16) h (16,16,16).
    let (a, b, c, d) = ((16, 0, 0), (0, 0, 0), (0, 16, 0), (16, 16, 0));
    let (e, ff, g, h) = ((16, 0, 16), (0, 0, 16), (0, 16, 16), (16, 16, 16));
    let s = (0, 0, -1);
    assert_eq!(
        f.south.unwrap(),
        [v(e, (48, 16), s), v(h, (48, 0), s), v(ff, (32, 16), s), v(h, (48, 0), s), v(g, (32, 0), s), v(ff, (32, 16), s)]
    );
    let w = (-1, 0, 0);
    assert_eq!(
        f.west.unwrap(),
        [v(g, (64, 0), w), v(b, (48, 16), w), v(ff, (64, 16), w), v(c, (48, 0), w), v(b, (48, 16), w), v(g, (64, 0), w)]
    );
    let n = (0, 0, 1);
    assert_eq!(
        f.north.unwrap(),
        [v(c, (16, 0), n), v(a, (0, 16), n), v(b, (16, 16), n), v(d, (0, 0), n), v(a, (0, 16), n), v(c, (16, 0), n)]
    );
    let ea = (1, 0, 0);
    assert_eq!(
        f.east.unwrap(),
        [v(e, (16, 16), ea), v(a, (32, 16), ea), v(d, (32, 0), ea), v(d, (32, 0), ea), v(h, (16, 0), ea), v(e, (16, 16), ea)]
    );
    let u = (1, 0, 0);
    assert_eq!(
        f.up.unwrap(),
        [v(g, (16, 16), u), v(h, (0, 16), u), v(d, (0, 32), u), v(c, (16, 32), u), v(g, (16, 16), u), v(d, (0, 32), u)]
    );
    let dn = (0, -1, 0);
    assert_eq!(
        f.down.unwrap(),
        [v(ff, (16, 32), dn), v(b, (16, 16), dn), v(a, (32, 16), dn), v(ff, (16, 32), dn), v(a, (32, 16), dn), v(e, (32, 32), dn)]
    );
}

#[test]
fn partial_box_positions_mirror_x() {
    let mut faces = no_faces();
    faces.down = face("block/down");
    let f = block_model::bake_element(&element(p(2, 3, 4), p(10, 11, 12), faces), &atlas()).unwrap();
    let down = f.down.unwrap();
    // f, b, a, f, a, e with X = 16 - x.
    assert_eq!(down[0].position, Position { x: 6, y: 3, z: 12 });
    assert_eq!(down[1].position, Position { x: 6, y: 3, z: 4 });
    assert_eq!(down[2].position, Position { x: 14, y: 3, z: 4 });
    assert_eq!(down[5].position, Position { x: 14, y: 3, z: 12 });
}

#[test]
fn single_unit_cube_is_classified_as_cube() {
    let mdl = model(vec![element(p(0, 0, 0), p(16, 16, 16), no_faces())]);
    assert!(block_model::is_unit_cube(&mdl));
    let m = BlockstateVariantMesh::bake_block_model(&mdl, &atlas()).unwrap();
    assert!(matches!(m.shape, CubeOrComplexMesh::Cube(_)));
    assert!(!m.transparent_or_complex);
}

#[test]
fn two_elements_are_classified_as_custom() {
    let mdl = model(vec![
        element(p(0, 0, 0), p(16, 16, 16), all_faces()),
        element(p(0, 0, 0), p(16, 8, 16), all_faces()),
    ]);
    assert!(!block_model::is_unit_cube(&mdl));
    let m = BlockstateVariantMesh::bake_block_model(&mdl, &atlas()).unwrap();
    match &m.shape {
        CubeOrComplexMesh::Custom(v) => {
            assert_eq!(v.len(), 2);
            assert_eq!(v[1].up.unwrap()[0].position, Position { x: 0, y: 8, z: 16 });
        }
        CubeOrComplexMesh::Cube(_) => panic!("expected a custom shape"),
    }
    assert!(m.transparent_or_complex);
}

#[test]
fn partial_single_element_is_classified_as_custom() {
    let mdl = model(vec![element(p(0, 0, 0), p(16, 16, 15), all_faces())]);
    assert!(!block_model::is_unit_cube(&mdl));
    let m = BlockstateVariantMesh::bake_block_model(&mdl, &atlas()).unwrap();
    assert!(matches!(&m.shape, CubeOrComplexMesh::Custom(v) if v.len() == 1));
    assert!(m.transparent_or_complex);
    let empty = BlockstateVariantMesh::bake_block_model(&model(vec![]), &atlas()).unwrap();
    assert!(matches!(&empty.shape, CubeOrComplexMesh::Custom(v) if v.is_empty()));
}

#[test]
fn a_tag_anywhere_fails_the_whole_bake() {
    let mut faces = all_faces();
    faces.west = tag_face("side");
    let mdl = model(vec![element(p(0, 0, 0), p(16, 16, 16), all_faces()), element(p(0, 0, 0), p(8, 8, 8), faces)]);
    assert_eq!(
        BlockstateVariantMesh::bake_block_model(&mdl, &atlas()).unwrap_err(),
        BakeError::ModelBakeFailed { element: 1, cause: UvError::UnresolvedTextureReference }
    );
}

#[test]
fn bake_stops_at_the_first_failing_element_and_face() {
    let mut first = no_faces();
    first.east = tag_face("side");
    first.north = face("block/missing");
    let mut second = no_faces();
    second.north = tag_face("side");
    let mdl = model(vec![
        element(p(0, 0, 0), p(16, 16, 16), all_faces()),
        element(p(0, 0, 0), p(8, 8, 8), first),
        element(p(0, 0, 0), p(8, 8, 8), second),
    ]);
    assert_eq!(
        BlockstateVariantMesh::bake_block_model(&mdl, &atlas()).unwrap_err(),
        BakeError::ModelBakeFailed { element: 1, cause: UvError::AtlasLookupMiss }
    );
}

#[test]
fn bake_reads_only_the_snapshot_it_was_given() {
    let mdl = model(vec![element(p(0, 0, 0), p(16, 16, 16), all_faces())]);
    let first = atlas();
    let baked = BlockstateVariantMesh::bake_block_model(&mdl, &first).unwrap();
    let mut reloaded = atlas();
    reloaded.insert(res("block/north"), rect(512, 512, 528, 528));
    let rebaked = BlockstateVariantMesh::bake_block_model(&mdl, &reloaded).unwrap();
    assert_eq!(faces_of(&baked).north.unwrap()[1].tex_coords, AtlasCoord { u: 0, v: 16 });
    assert_eq!(faces_of(&rebaked).north.unwrap()[1].tex_coords, AtlasCoord { u: 512, v: 528 });
    let again = BlockstateVariantMesh::bake_block_model(&mdl, &first).unwrap();
    assert_eq!(faces_of(&again).north, faces_of(&baked).north);
}

#[test]
fn transparency_predicate_flags_a_cube() {
    let mdl = model(vec![element(p(0, 0, 0), p(16, 16, 16), all_faces())]);
    let m = BlockstateVariantMesh::bake_block_model_with(&mdl, &atlas(), |_e: &ModelElement| true).unwrap();
    assert!(matches!(m.shape, CubeOrComplexMesh::Cube(_)));
    assert!(m.transparent_or_complex);
    let m = BlockstateVariantMesh::bake_block_model_with(&mdl, &atlas(), |_e: &ModelElement| false).unwrap();
    assert!(!m.transparent_or_complex);
}

#[test]
fn face_layout_and_bake_face_agree_with_the_table() {
    let uv = AtlasUv { from: AtlasCoord { u: 1, v: 2 }, to: AtlasCoord { u: 3, v: 4 } };
    let verts = block_model::bake_face(p(0, 0, 0), p(16, 16, 16), uv, Direction::East);
    let table = block_model::face_layout(Direction::East);
    assert_eq!(table[0].corner, block_model::Corner::E);
    assert!(!table[0].u_to && table[0].v_to);
    assert_eq!(verts[0].tex_coords, AtlasCoord { u: 1, v: 4 });
    assert_eq!(block_model::normal_of(Direction::Down), Normal { x: 0, y: -1, z: 0 });
    assert_eq!(
        block_model::corner_of(p(1, 2, 3), p(4, 5, 6), block_model::Corner::G),
        Position { x: 12, y: 5, z: 6 }
    );
}
