use vstd::prelude::*;
use crate::model::{NamespacedResource, TagOrResource, FaceTexture, UvRect};

verus! {

/// Side length of the square texture atlas, in pixels.
pub const ATLAS_DIMENSIONS: u32 = 1024;

/// A point of the atlas, in atlas pixels; dividing each component by
/// `ATLAS_DIMENSIONS` gives the normalized coordinate.
#[derive(Clone, Copy, Debug, PartialEq, Eq, Structural)]
pub struct AtlasCoord {
    pub u: u64,
    pub v: u64,
}

/// A rectangle of the atlas given by two opposite corners.
#[derive(Clone, Copy, Debug, PartialEq, Eq, Structural)]
pub struct AtlasUv {
    pub from: AtlasCoord,
    pub to: AtlasCoord,
}

/// Why a face texture has no place in the atlas.
#[derive(Clone, Copy, Debug, PartialEq, Eq, Structural)]
pub enum UvError {
    /// The texture reference is a tag, not a concrete resource.
    UnresolvedTextureReference,
    /// The resource has no entry in the atlas.
    AtlasLookupMiss,
}

/// Where one texture was packed in the atlas.
#[derive(Debug)]
pub struct AtlasEntry {
    pub texture: NamespacedResource,
    pub placement: UvRect,
}

/// An immutable view of the atlas table: each packed texture with its
/// placement. No texture appears twice.
#[derive(Debug)]
pub struct AtlasSnapshot {
    entries: Vec<AtlasEntry>,
}

impl AtlasSnapshot {
    pub closed spec fn entries(&self) -> Seq<AtlasEntry> {
        self.entries@
    }

    /// No two entries share a texture.
    pub open spec fn wf(&self) -> bool {
        forall|i: int, j: int|
            0 <= i < j < self.entries().len() ==> (#[trigger] self.entries()[i]).texture.key()
                != (#[trigger] self.entries()[j]).texture.key()
    }

    /// Whether `key` has an entry.
    pub open spec fn contains(&self, key: (Seq<char>, Seq<char>)) -> bool {
        exists|i: int| 0 <= i < self.entries().len() && (#[trigger] self.entries()[i]).texture.key() == key
    }

    /// The placement recorded for `key`, if any.
    pub open spec fn placement(&self, key: (Seq<char>, Seq<char>)) -> Option<UvRect> {
        if self.contains(key) {
            let i = choose|i: int| 0 <= i < self.entries().len() && (#[trigger] self.entries()[i]).texture.key() == key;
            Some(self.entries()[i].placement)
        } else {
            None
        }
    }

    /// An atlas with no texture in it.
    pub fn new() -> (r: AtlasSnapshot)
        ensures
            r.wf(),
            forall|k: (Seq<char>, Seq<char>)| r.placement(k) is None,
    {
        AtlasSnapshot { entries: Vec::new() }
    }

    /// Records `placement` for `texture`, replacing an earlier placement of it.
    pub fn insert(&mut self, texture: NamespacedResource, placement: UvRect)
        requires
            old(self).wf(),
        ensures
            final(self).wf(),
            final(self).placement(texture.key()) == Some(placement),
            forall|k: (Seq<char>, Seq<char>)|
                k != texture.key() ==> #[trigger] final(self).placement(k) == old(self).placement(k),
    {
        let n = self.entries.len();
        let mut i: usize = 0;
        while i < n
            invariant
                n == self.entries.len(),
                self.wf(),
                *self == *old(self),
                0 <= i <= n,
                forall|j: int| 0 <= j < i ==> (#[trigger] self.entries()[j]).texture.key() != texture.key(),
            decreases n - i,
        {
            if self.entries[i].texture.same_as(&texture) {
                let ghost before = self.entries();
                self.entries.set(i, AtlasEntry { texture, placement });
                proof {
                    assert(self.entries()[i as int].texture.key() == before[i as int].texture.key());
                    assert forall|k: (Seq<char>, Seq<char>)|
                        k != self.entries()[i as int].texture.key() implies #[trigger] self.placement(k)
                        == old(self).placement(k) by {
                        if self.contains(k) {
                            let j = choose|j: int| 0 <= j < self.entries().len() && (#[trigger] self.entries()[j]).texture.key() == k;
                            assert(before[j].texture.key() == k);
                        }
                        if old(self).contains(k) {
                            let j = choose|j: int| 0 <= j < before.len() && (#[trigger] before[j]).texture.key() == k;
                            assert(self.entries()[j].texture.key() == k);
                        }
                    }
                    assert(self.contains(texture.key()));
                }
                return;
            }
            i = i + 1;
        }
        let ghost before = self.entries();
        self.entries.push(AtlasEntry { texture, placement });
        proof {
            let last = before.len() as int;
            assert(self.entries()[last].texture.key() == texture.key());
            assert(self.contains(texture.key()));
            assert forall|k: (Seq<char>, Seq<char>)|
                k != texture.key() implies #[trigger] self.placement(k) == old(self).placement(k) by {
                if self.contains(k) {
                    let j = choose|j: int| 0 <= j < self.entries().len() && (#[trigger] self.entries()[j]).texture.key() == k;
                    assert(before[j].texture.key() == k);
                }
                if old(self).contains(k) {
                    let j = choose|j: int| 0 <= j < before.len() && (#[trigger] before[j]).texture.key() == k;
                    assert(self.entries()[j].texture.key() == k);
                }
            }
        }
    }

    /// The placement recorded for `texture`, if any.
    pub fn lookup(&self, texture: &NamespacedResource) -> (r: Option<UvRect>)
        requires
            self.wf(),
        ensures
            r == self.placement(texture.key()),
    {
        let n = self.entries.len();
        let mut i: usize = 0;
        while i < n
            invariant
                n == self.entries.len(),
                self.wf(),
                0 <= i <= n,
                forall|j: int| 0 <= j < i ==> (#[trigger] self.entries()[j]).texture.key() != texture.key(),
            decreases n - i,
        {
            if self.entries[i].texture.same_as(texture) {
                proof {
                    assert(self.entries()[i as int].texture.key() == texture.key());
                    assert(self.contains(texture.key()));
                    let j = choose|j: int| 0 <= j < self.entries().len() && (#[trigger] self.entries()[j]).texture.key() == texture.key();
                    assert(j == i);
                }
                return Some(self.entries[i].placement);
            }
            i = i + 1;
        }
        None
    }
}

/// The atlas rectangle of a face: the texture's placement corner `placement.from`
/// offset by each corner of the face's local rectangle.
pub open spec fn offset_uv(placement: UvRect, local: UvRect) -> AtlasUv {
    AtlasUv {
        from: AtlasCoord {
            u: (placement.from.u + local.from.u) as u64,
            v: (placement.from.v + local.from.v) as u64,
        },
        to: AtlasCoord {
            u: (placement.from.u + local.to.u) as u64,
            v: (placement.from.v + local.to.v) as u64,
        },
    }
}

/// Where a face texture lands in the atlas, or why it does not.
pub open spec fn resolve(face: FaceTexture, atlas: AtlasSnapshot) -> Result<AtlasUv, UvError> {
    match face.texture {
        TagOrResource::Tag(_) => Err(UvError::UnresolvedTextureReference),
        TagOrResource::Resource(res) => match atlas.placement(res.key()) {
            None => Err(UvError::AtlasLookupMiss),
            Some(p) => Ok(offset_uv(p, face.uv)),
        },
    }
}


/// A face whose texture the atlas holds at `placement` lands at that cell's
/// corner offset by the face's own rectangle, on both corners.
pub proof fn lemma_known_placement_offsets_uv(face: FaceTexture, atlas: AtlasSnapshot, placement: UvRect)
    requires
        face.texture is Resource,
        atlas.placement(face.texture->Resource_0.key()) == Some(placement),
    ensures
        resolve(face, atlas) == Ok::<AtlasUv, UvError>(offset_uv(placement, face.uv)),
        resolve(face, atlas)->Ok_0.from.u == placement.from.u + face.uv.from.u,
        resolve(face, atlas)->Ok_0.from.v == placement.from.v + face.uv.from.v,
        resolve(face, atlas)->Ok_0.to.u == placement.from.u + face.uv.to.u,
        resolve(face, atlas)->Ok_0.to.v == placement.from.v + face.uv.to.v,
{
}

} // verus!
