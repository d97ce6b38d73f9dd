use vstd::prelude::*;

use crate::texture_atlas::TextureAtlasCoords;

verus! {

/// A point or a direction with integer coordinates.
#[derive(Copy, Clone, Debug, PartialEq, Eq, Structural)]
pub struct Point3 {
    pub x: i64,
    pub y: i64,
    pub z: i64,
}

impl Point3 {
    pub fn new(x: i64, y: i64, z: i64) -> (r: Point3)
        ensures
            r == (Point3 { x, y, z }),
    {
        Point3 { x, y, z }
    }
}

/// A mesh vertex. `position` is measured in half blocks, so that the corner
/// `k + 0.5` of a block is the integer `2k + 1`; `normal` is a unit vector
/// along one axis.
#[derive(Copy, Clone, Debug, PartialEq, Eq, Structural)]
pub struct Vertex {
    pub position: Point3,
    pub normal: Point3,
    pub uv: TextureAtlasCoords,
}

impl Vertex {
    pub fn new(position: Point3, normal: Point3, uv: TextureAtlasCoords) -> (r: Vertex)
        ensures
            r == (Vertex { position, normal, uv }),
    {
        Vertex { position, normal, uv }
    }
}

/// The two triangles of the quad whose first vertex is `base`.
pub open spec fn quad_indices(base: int) -> Seq<u32> {
    seq![
        base as u32,
        (base + 1) as u32,
        (base + 2) as u32,
        base as u32,
        (base + 2) as u32,
        (base + 3) as u32,
    ]
}

/// The index list of `quads` quads, each over its own four vertices.
pub open spec fn indices_for(quads: nat) -> Seq<u32>
    decreases quads,
{
    if quads == 0 {
        seq![]
    } else {
        indices_for((quads - 1) as nat) + quad_indices(4 * (quads - 1))
    }
}

proof fn lemma_indices_for_len(quads: nat)
    ensures
        indices_for(quads).len() == 6 * quads,
    decreases quads,
{
    if quads > 0 {
        lemma_indices_for_len((quads - 1) as nat);
    }
}

/// A triangle mesh built from quads, with the translation (in blocks) at
/// which it is drawn.
pub struct Mesh {
    translation: Point3,
    vertices: Vec<Vertex>,
    indices: Vec<u32>,
}

impl Mesh {
    pub closed spec fn spec_translation(&self) -> Point3 {
        self.translation
    }

    pub closed spec fn spec_vertices(&self) -> Seq<Vertex> {
        self.vertices@
    }

    pub closed spec fn spec_indices(&self) -> Seq<u32> {
        self.indices@
    }

    /// The number of quads in the mesh.
    pub open spec fn quad_count(&self) -> nat {
        self.spec_vertices().len() / 4
    }

    /// The vertices come in fours, one four per quad, and the indices are
    /// the two triangles of each quad in turn.
    pub closed spec fn wf(&self) -> bool {
        &&& self.spec_vertices().len() % 4 == 0
        &&& self.spec_vertices().len() <= u32::MAX + 1
        &&& self.spec_indices() == indices_for(self.quad_count())
    }

    /// What well-formedness says of a mesh's index list.
    pub proof fn lemma_wf_indices(&self)
        requires
            self.wf(),
        ensures
            self.spec_vertices().len() % 4 == 0,
            self.spec_indices() == indices_for(self.quad_count()),
    {
    }

    /// The index list of a well-formed mesh holds six indices per quad.
    pub proof fn lemma_index_count(&self)
        requires
            self.wf(),
        ensures
            self.spec_indices().len() == 6 * self.quad_count(),
    {
        lemma_indices_for_len(self.quad_count());
    }

    /// A mesh with no quads, drawn at the origin.
    pub fn empty() -> (r: Mesh)
        ensures
            r.wf(),
            r.spec_vertices() == Seq::<Vertex>::empty(),
            r.spec_indices() == Seq::<u32>::empty(),
            r.spec_translation() == (Point3 { x: 0, y: 0, z: 0 }),
    {
        Mesh { translation: Point3::new(0, 0, 0), vertices: Vec::new(), indices: Vec::new() }
    }

    /// Appends the four vertices of a quad and the six indices of its two
    /// triangles, `(0, 1, 2)` and `(0, 2, 3)` counted from its first vertex.
    pub fn add_quad(&mut self, quad: [Vertex; 4])
        requires
            old(self).wf(),
            old(self).spec_vertices().len() + 4 <= u32::MAX + 1,
        ensures
            final(self).wf(),
            final(self).spec_vertices() == old(self).spec_vertices() + quad@,
            final(self).spec_indices() == old(self).spec_indices() + quad_indices(
                old(self).spec_vertices().len() as int,
            ),
            final(self).spec_translation() == old(self).spec_translation(),
    {
        let base = self.vertices.len() as u32;
        let mut k: usize = 0;
        while k < 4
            invariant
                k <= 4,
                self.vertices@ == old(self).vertices@ + quad@.take(k as int),
                self.indices@ == old(self).indices@,
                self.translation == old(self).translation,
            decreases 4 - k,
        {
            self.vertices.push(quad[k]);
            proof {
                assert(quad@.take(k as int + 1) == quad@.take(k as int).push(quad@[k as int]));
            }
            k = k + 1;
        }
        assert(quad@.take(4) == quad@);
        self.indices.push(base);
        self.indices.push(base + 1);
        self.indices.push(base + 2);
        self.indices.push(base);
        self.indices.push(base + 2);
        self.indices.push(base + 3);
        proof {
            let q = old(self).vertices@.len() / 4;
            assert(self.vertices@.len() / 4 == q + 1);
            assert(indices_for(q + 1) == indices_for(q) + quad_indices(4 * q as int));
            assert(self.indices@ =~= old(self).indices@ + quad_indices(base as int));
        }
    }

    pub fn set_translation(&mut self, translation: Point3)
        ensures
            final(self).spec_translation() == translation,
            final(self).wf() == old(self).wf(),
            final(self).spec_vertices() == old(self).spec_vertices(),
            final(self).spec_indices() == old(self).spec_indices(),
    {
        self.translation = translation;
    }

    pub fn translation(&self) -> (r: Point3)
        ensures
            r == self.spec_translation(),
    {
        self.translation
    }

    pub fn vertices(&self) -> (r: &Vec<Vertex>)
        ensures
            r@ == self.spec_vertices(),
    {
        &self.vertices
    }

    pub fn indices(&self) -> (r: &Vec<u32>)
        ensures
            r@ == self.spec_indices(),
    {
        &self.indices
    }
}

} // verus!
