//! Chunks: fixed-size grids of blocks, filled from the terrain rules and
//! turned into a mesh of the faces that are not hidden by a solid neighbour.
use vstd::prelude::*;

use crate::block::BlockId;
use crate::mesh::{Mesh, Point3, Vertex};
use crate::texture_atlas::{BlockUv, Face, TextureAtlas};
use crate::world_generator::{get_block_at, spec_block_at, NoiseSample};

verus! {

pub const CHUNK_HEIGHT: usize = 256;

pub const CHUNK_WIDTH: usize = 16;

pub const CHUNK_DEPTH: usize = 16;

/// The number of cells in a chunk.
pub const CHUNK_VOLUME: usize = 65536;

/// The largest magnitude of a chunk's grid position on any axis.
pub const MAX_CHUNK_COORD: i64 = 0xffff_ffff_ffff;

/// The chunks next to a chunk in the horizontal plane.
#[derive(Copy, Clone, Debug, PartialEq, Eq, Structural)]
pub enum ChunkNeighbor {
    LeftNeighbor,
    RightNeighbor,
    FrontNeighbor,
    BackNeighbor,
}

/// The position of cell `(h, w, d)` in a chunk's flat cell buffer: height
/// outermost, then width, then depth.
pub open spec fn cell_index(h: int, w: int, d: int) -> int {
    (h * CHUNK_WIDTH as int + w) * CHUNK_DEPTH as int + d
}

pub open spec fn cell_h(i: int) -> int {
    i / (CHUNK_WIDTH as int * CHUNK_DEPTH as int)
}

pub open spec fn cell_w(i: int) -> int {
    (i / CHUNK_DEPTH as int) % CHUNK_WIDTH as int
}

pub open spec fn cell_d(i: int) -> int {
    i % CHUNK_DEPTH as int
}

pub open spec fn in_grid(h: int, w: int, d: int) -> bool {
    &&& 0 <= h < CHUNK_HEIGHT
    &&& 0 <= w < CHUNK_WIDTH
    &&& 0 <= d < CHUNK_DEPTH
}

/// The flat index of every cell is in range, and a flat index in range
/// names the cell whose coordinates it decodes to.
pub proof fn lemma_cell_coords(i: int)
    requires
        0 <= i < CHUNK_VOLUME,
    ensures
        in_grid(cell_h(i), cell_w(i), cell_d(i)),
        cell_index(cell_h(i), cell_w(i), cell_d(i)) == i,
{
}

pub proof fn lemma_cell_index_in_range(h: int, w: int, d: int)
    requires
        in_grid(h, w, d),
    ensures
        0 <= cell_index(h, w, d) < CHUNK_VOLUME,
        cell_h(cell_index(h, w, d)) == h,
        cell_w(cell_index(h, w, d)) == w,
        cell_d(cell_index(h, w, d)) == d,
{
    let i = cell_index(h, w, d);
    assert(i / 256 == h && i % 256 == 16 * w + d) by (nonlinear_arith)
        requires
            i == 256 * h + 16 * w + d,
            0 <= 16 * w + d < 256,
    {
    }
    assert(i / 16 == 16 * h + w && i % 16 == d) by (nonlinear_arith)
        requires
            i == 16 * (16 * h + w) + d,
            0 <= d < 16,
    {
    }
    assert((16 * h + w) % 16 == w) by (nonlinear_arith)
        requires
            0 <= w < 16,
            0 <= h,
    {
    }
}

/// The cell next to `(h, w, d)` across `face`: height grows upwards, width
/// to the right and depth to the front.
pub open spec fn neighbor_of(face: Face, h: int, w: int, d: int) -> (int, int, int) {
    match face {
        Face::Top => (h + 1, w, d),
        Face::Bottom => (h - 1, w, d),
        Face::Right => (h, w + 1, d),
        Face::Left => (h, w - 1, d),
        Face::Front => (h, w, d + 1),
        Face::Back => (h, w, d - 1),
    }
}

/// The unit normal of a face; x runs along width, y along height and z
/// along depth.
pub open spec fn face_normal(face: Face) -> Point3 {
    match face {
        Face::Top => Point3 { x: 0, y: 1, z: 0 },
        Face::Bottom => Point3 { x: 0, y: -1i64, z: 0 },
        Face::Right => Point3 { x: 1, y: 0, z: 0 },
        Face::Left => Point3 { x: -1i64, y: 0, z: 0 },
        Face::Front => Point3 { x: 0, y: 0, z: 1 },
        Face::Back => Point3 { x: 0, y: 0, z: -1i64 },
    }
}

/// The side (-1 or +1 half block, along x, y, z) of corner `k` of a face,
/// in emission order.
pub open spec fn corner_sign(face: Face, k: int) -> (int, int, int) {
    let s: Seq<(int, int, int)> = match face {
        Face::Top => seq![(1, 1, -1), (1, 1, 1), (-1, 1, 1), (-1, 1, -1)],
        Face::Right => seq![(1, 1, -1), (1, -1, -1), (1, -1, 1), (1, 1, 1)],
        Face::Back => seq![(-1, 1, -1), (-1, -1, -1), (1, -1, -1), (1, 1, -1)],
        Face::Front => seq![(1, 1, 1), (1, -1, 1), (-1, -1, 1), (-1, 1, 1)],
        Face::Left => seq![(-1, 1, 1), (-1, -1, 1), (-1, -1, -1), (-1, 1, -1)],
        Face::Bottom => seq![(1, -1, 1), (1, -1, -1), (-1, -1, -1), (-1, -1, 1)],
    };
    s[k]
}

/// Corner `(sx, sy, sz)` of cell `(h, w, d)`, in half blocks.
pub open spec fn corner_position(h: int, w: int, d: int, sx: int, sy: int, sz: int) -> Point3 {
    Point3 { x: (2 * w + sx) as i64, y: (2 * h + sy) as i64, z: (2 * d + sz) as i64 }
}

/// The four vertices of `face` of cell `(h, w, d)`, textured with `uv`.
pub open spec fn face_quad(h: int, w: int, d: int, face: Face, uv: BlockUv) -> Seq<Vertex> {
    Seq::new(
        4,
        |k: int|
            Vertex {
                position: corner_position(
                    h,
                    w,
                    d,
                    corner_sign(face, k).0,
                    corner_sign(face, k).1,
                    corner_sign(face, k).2,
                ),
                normal: face_normal(face),
                uv: uv.spec_face(face)@[k],
            },
    )
}

/// Corner `(sx, sy, sz)` of cell `(h, w, d)`, in half blocks.
fn corner(h: usize, w: usize, d: usize, sx: i64, sy: i64, sz: i64) -> (r: Point3)
    requires
        in_grid(h as int, w as int, d as int),
        -1 <= sx <= 1,
        -1 <= sy <= 1,
        -1 <= sz <= 1,
    ensures
        r == corner_position(h as int, w as int, d as int, sx as int, sy as int, sz as int),
{
    Point3::new(2 * w as i64 + sx, 2 * h as i64 + sy, 2 * d as i64 + sz)
}

/// Appends the top face of cell `(h, w, d)`.
fn add_upper_quad_for_block(mesh: &mut Mesh, h: usize, w: usize, d: usize, uv: &BlockUv)
    requires
        old(mesh).wf(),
        old(mesh).spec_vertices().len() + 4 <= u32::MAX + 1,
        in_grid(h as int, w as int, d as int),
    ensures
        final(mesh).wf(),
        final(mesh).spec_vertices() == old(mesh).spec_vertices() + face_quad(
            h as int,
            w as int,
            d as int,
            Face::Top,
            *uv,
        ),
        final(mesh).spec_translation() == old(mesh).spec_translation(),
{
    let normal = Point3::new(0, 1, 0);
    let c = &uv.top;
    let quad = [
        Vertex::new(corner(h, w, d, 1, 1, -1), normal, c[0]),
        Vertex::new(corner(h, w, d, 1, 1, 1), normal, c[1]),
        Vertex::new(corner(h, w, d, -1, 1, 1), normal, c[2]),
        Vertex::new(corner(h, w, d, -1, 1, -1), normal, c[3]),
    ];
    assert(quad@ =~= face_quad(h as int, w as int, d as int, Face::Top, *uv));
    mesh.add_quad(quad);
}

/// Appends the right face of cell `(h, w, d)`.
fn add_right_quad_for_block(mesh: &mut Mesh, h: usize, w: usize, d: usize, uv: &BlockUv)
    requires
        old(mesh).wf(),
        old(mesh).spec_vertices().len() + 4 <= u32::MAX + 1,
        in_grid(h as int, w as int, d as int),
    ensures
        final(mesh).wf(),
        final(mesh).spec_vertices() == old(mesh).spec_vertices() + face_quad(
            h as int,
            w as int,
            d as int,
            Face::Right,
            *uv,
        ),
        final(mesh).spec_translation() == old(mesh).spec_translation(),
{
    let normal = Point3::new(1, 0, 0);
    let c = &uv.right;
    let quad = [
        Vertex::new(corner(h, w, d, 1, 1, -1), normal, c[0]),
        Vertex::new(corner(h, w, d, 1, -1, -1), normal, c[1]),
        Vertex::new(corner(h, w, d, 1, -1, 1), normal, c[2]),
        Vertex::new(corner(h, w, d, 1, 1, 1), normal, c[3]),
    ];
    assert(quad@ =~= face_quad(h as int, w as int, d as int, Face::Right, *uv));
    mesh.add_quad(quad);
}

/// Appends the back face of cell `(h, w, d)`.
fn add_backside_quad_for_block(mesh: &mut Mesh, h: usize, w: usize, d: usize, uv: &BlockUv)
    requires
        old(mesh).wf(),
        old(mesh).spec_vertices().len() + 4 <= u32::MAX + 1,
        in_grid(h as int, w as int, d as int),
    ensures
        final(mesh).wf(),
        final(mesh).spec_vertices() == old(mesh).spec_vertices() + face_quad(
            h as int,
            w as int,
            d as int,
            Face::Back,
            *uv,
        ),
        final(mesh).spec_translation() == old(mesh).spec_translation(),
{
    let normal = Point3::new(0, 0, -1);
    let c = &uv.back;
    let quad = [
        Vertex::new(corner(h, w, d, -1, 1, -1), normal, c[0]),
        Vertex::new(corner(h, w, d, -1, -1, -1), normal, c[1]),
        Vertex::new(corner(h, w, d, 1, -1, -1), normal, c[2]),
        Vertex::new(corner(h, w, d, 1, 1, -1), normal, c[3]),
    ];
    assert(quad@ =~= face_quad(h as int, w as int, d as int, Face::Back, *uv));
    mesh.add_quad(quad);
}

/// Appends the front face of cell `(h, w, d)`.
fn add_front_quad_for_block(mesh: &mut Mesh, h: usize, w: usize, d: usize, uv: &BlockUv)
    requires
        old(mesh).wf(),
        old(mesh).spec_vertices().len() + 4 <= u32::MAX + 1,
        in_grid(h as int, w as int, d as int),
    ensures
        final(mesh).wf(),
        final(mesh).spec_vertices() == old(mesh).spec_vertices() + face_quad(
            h as int,
            w as int,
            d as int,
            Face::Front,
            *uv,
        ),
        final(mesh).spec_translation() == old(mesh).spec_translation(),
{
    let normal = Point3::new(0, 0, 1);
    let c = &uv.front;
    let quad = [
        Vertex::new(corner(h, w, d, 1, 1, 1), normal, c[0]),
        Vertex::new(corner(h, w, d, 1, -1, 1), normal, c[1]),
        Vertex::new(corner(h, w, d, -1, -1, 1), normal, c[2]),
        Vertex::new(corner(h, w, d, -1, 1, 1), normal, c[3]),
    ];
    assert(quad@ =~= face_quad(h as int, w as int, d as int, Face::Front, *uv));
    mesh.add_quad(quad);
}

/// Appends the left face of cell `(h, w, d)`.
fn add_left_quad_for_block(mesh: &mut Mesh, h: usize, w: usize, d: usize, uv: &BlockUv)
    requires
        old(mesh).wf(),
        old(mesh).spec_vertices().len() + 4 <= u32::MAX + 1,
        in_grid(h as int, w as int, d as int),
    ensures
        final(mesh).wf(),
        final(mesh).spec_vertices() == old(mesh).spec_vertices() + face_quad(
            h as int,
            w as int,
            d as int,
            Face::Left,
            *uv,
        ),
        final(mesh).spec_translation() == old(mesh).spec_translation(),
{
    let normal = Point3::new(-1, 0, 0);
    let c = &uv.left;
    let quad = [
        Vertex::new(corner(h, w, d, -1, 1, 1), normal, c[0]),
        Vertex::new(corner(h, w, d, -1, -1, 1), normal, c[1]),
        Vertex::new(corner(h, w, d, -1, -1, -1), normal, c[2]),
        Vertex::new(corner(h, w, d, -1, 1, -1), normal, c[3]),
    ];
    assert(quad@ =~= face_quad(h as int, w as int, d as int, Face::Left, *uv));
    mesh.add_quad(quad);
}

/// Appends the bottom face of cell `(h, w, d)`.
fn add_bottom_quad_for_block(mesh: &mut Mesh, h: usize, w: usize, d: usize, uv: &BlockUv)
    requires
        old(mesh).wf(),
        old(mesh).spec_vertices().len() + 4 <= u32::MAX + 1,
        in_grid(h as int, w as int, d as int),
    ensures
        final(mesh).wf(),
        final(mesh).spec_vertices() == old(mesh).spec_vertices() + face_quad(
            h as int,
            w as int,
            d as int,
            Face::Bottom,
            *uv,
        ),
        final(mesh).spec_translation() == old(mesh).spec_translation(),
{
    let normal = Point3::new(0, -1, 0);
    let c = &uv.bottom;
    let quad = [
        Vertex::new(corner(h, w, d, 1, -1, 1), normal, c[0]),
        Vertex::new(corner(h, w, d, 1, -1, -1), normal, c[1]),
        Vertex::new(corner(h, w, d, -1, -1, -1), normal, c[2]),
        Vertex::new(corner(h, w, d, -1, -1, 1), normal, c[3]),
    ];
    assert(quad@ =~= face_quad(h as int, w as int, d as int, Face::Bottom, *uv));
    mesh.add_quad(quad);
}

/// A fixed-size grid of blocks at a position of the chunk grid.
pub struct Chunk {
    origin: Point3,
    data: Vec<BlockId>,
}

impl Chunk {
    pub closed spec fn spec_origin(&self) -> Point3 {
        self.origin
    }

    /// The cells in flat order (see `cell_index`).
    pub closed spec fn spec_data(&self) -> Seq<BlockId> {
        self.data@
    }

    /// Every cell is stored, and the world coordinates of every cell fit.
    pub open spec fn wf(&self) -> bool {
        &&& self.spec_data().len() == CHUNK_VOLUME
        &&& -MAX_CHUNK_COORD <= self.spec_origin().x <= MAX_CHUNK_COORD
        &&& -MAX_CHUNK_COORD <= self.spec_origin().y <= MAX_CHUNK_COORD
        &&& -MAX_CHUNK_COORD <= self.spec_origin().z <= MAX_CHUNK_COORD
    }

    pub open spec fn spec_block(&self, h: int, w: int, d: int) -> BlockId {
        self.spec_data()[cell_index(h, w, d)]
    }

    /// The world coordinate `[x, y, z]` of cell `(h, w, d)`: the chunk's grid
    /// position scaled by the chunk's extents, plus the cell.
    pub open spec fn spec_world_coordinate(&self, h: int, w: int, d: int) -> [i64; 3] {
        [
            (self.spec_origin().x * CHUNK_WIDTH as int + w) as i64,
            (self.spec_origin().y * CHUNK_HEIGHT as int + h) as i64,
            (self.spec_origin().z * CHUNK_DEPTH as int + d) as i64,
        ]
    }

    /// Where the chunk's mesh is drawn: its grid position times its extents.
    pub open spec fn spec_world_offset(&self) -> Point3 {
        Point3 {
            x: (self.spec_origin().x * CHUNK_WIDTH as int) as i64,
            y: (self.spec_origin().y * CHUNK_HEIGHT as int) as i64,
            z: (self.spec_origin().z * CHUNK_DEPTH as int) as i64,
        }
    }

    /// Whether `face` of cell `(h, w, d)` is seen: the cell across it lies
    /// outside the chunk or holds air.
    pub open spec fn spec_exposed(&self, face: Face, h: int, w: int, d: int) -> bool {
        let (nh, nw, nd) = neighbor_of(face, h, w, d);
        !in_grid(nh, nw, nd) || self.spec_block(nh, nw, nd) == BlockId::Air
    }

    /// Every solid block of the chunk has coordinates in `atlas`.
    pub open spec fn renderable_with(&self, atlas: &TextureAtlas) -> bool {
        forall|i: int|
            0 <= i < CHUNK_VOLUME && #[trigger] self.spec_data()[i] != BlockId::Air
                ==> atlas.has_block(self.spec_data()[i])
    }

    /// The quad of `face` of cell `i` if that face is seen, else nothing.
    #[verifier::opaque]
    pub open spec fn face_part(&self, atlas: &TextureAtlas, i: int, face: Face) -> Seq<Vertex> {
        let (h, w, d) = (cell_h(i), cell_w(i), cell_d(i));
        if self.spec_exposed(face, h, w, d) {
            face_quad(h, w, d, face, atlas.spec_uv(self.spec_data()[i])->0)
        } else {
            seq![]
        }
    }

    /// The vertices that cell `i` contributes: nothing for air, else the
    /// quads of its seen faces in the order top, front, right, back, left,
    /// bottom.
    pub open spec fn cell_vertices(&self, atlas: &TextureAtlas, i: int) -> Seq<Vertex> {
        if self.spec_data()[i] == BlockId::Air {
            seq![]
        } else {
            self.face_part(atlas, i, Face::Top) + self.face_part(atlas, i, Face::Front)
                + self.face_part(atlas, i, Face::Right) + self.face_part(atlas, i, Face::Back)
                + self.face_part(atlas, i, Face::Left) + self.face_part(atlas, i, Face::Bottom)
        }
    }

    /// The vertices of the first `n` cells, in flat order.
    pub open spec fn vertices_upto(&self, atlas: &TextureAtlas, n: nat) -> Seq<Vertex>
        decreases n,
    {
        if n == 0 {
            seq![]
        } else {
            self.vertices_upto(atlas, (n - 1) as nat) + self.cell_vertices(atlas, n - 1)
        }
    }

    /// The vertices of the chunk's mesh.
    pub open spec fn mesh_vertices(&self, atlas: &TextureAtlas) -> Seq<Vertex> {
        self.vertices_upto(atlas, CHUNK_VOLUME as nat)
    }

    /// An empty chunk (all air) at grid position `origin`.
    pub fn new(origin: Point3) -> (r: Chunk)
        requires
            -MAX_CHUNK_COORD <= origin.x <= MAX_CHUNK_COORD,
            -MAX_CHUNK_COORD <= origin.y <= MAX_CHUNK_COORD,
            -MAX_CHUNK_COORD <= origin.z <= MAX_CHUNK_COORD,
        ensures
            r.wf(),
            r.spec_origin() == origin,
            forall|i: int| 0 <= i < CHUNK_VOLUME ==> #[trigger] r.spec_data()[i] == BlockId::Air,
    {
        let mut data: Vec<BlockId> = Vec::new();
        let mut i: usize = 0;
        while i < CHUNK_VOLUME
            invariant
                i <= CHUNK_VOLUME,
                data@.len() == i,
                forall|j: int| 0 <= j < i ==> #[trigger] data@[j] == BlockId::Air,
            decreases CHUNK_VOLUME - i,
        {
            data.push(BlockId::Air);
            i = i + 1;
        }
        Chunk { origin, data }
    }

    pub fn origin(&self) -> (r: Point3)
        ensures
            r == self.spec_origin(),
    {
        self.origin
    }

    /// The block in cell `(h, w, d)`.
    pub fn get_block(&self, h: usize, w: usize, d: usize) -> (r: BlockId)
        requires
            self.wf(),
            in_grid(h as int, w as int, d as int),
        ensures
            r == self.spec_block(h as int, w as int, d as int),
    {
        self.data[(h * CHUNK_WIDTH + w) * CHUNK_DEPTH + d]
    }

    /// Puts `block` in cell `(h, w, d)`.
    pub fn set_block(&mut self, h: usize, w: usize, d: usize, block: BlockId)
        requires
            old(self).wf(),
            in_grid(h as int, w as int, d as int),
        ensures
            final(self).wf(),
            final(self).spec_origin() == old(self).spec_origin(),
            final(self).spec_data() == old(self).spec_data().update(
                cell_index(h as int, w as int, d as int),
                block,
            ),
    {
        self.data.set((h * CHUNK_WIDTH + w) * CHUNK_DEPTH + d, block);
    }

    /// The world coordinate `[x, y, z]` of cell `(h, w, d)`.
    pub fn world_coordinate(&self, h: usize, w: usize, d: usize) -> (r: [i64; 3])
        requires
            self.wf(),
            in_grid(h as int, w as int, d as int),
        ensures
            r == self.spec_world_coordinate(h as int, w as int, d as int),
    {
        proof {
            let o = self.origin;
            assert(-0x100_0000_0000_0000 <= o.y * 256 <= 0x100_0000_0000_0000) by (nonlinear_arith)
                requires
                    -MAX_CHUNK_COORD <= o.y <= MAX_CHUNK_COORD,
            {
            }
            assert(-0x10_0000_0000_0000 <= o.x * 16 <= 0x10_0000_0000_0000) by (nonlinear_arith)
                requires
                    -MAX_CHUNK_COORD <= o.x <= MAX_CHUNK_COORD,
            {
            }
            assert(-0x10_0000_0000_0000 <= o.z * 16 <= 0x10_0000_0000_0000) by (nonlinear_arith)
                requires
                    -MAX_CHUNK_COORD <= o.z <= MAX_CHUNK_COORD,
            {
            }
        }
        [
            self.origin.x * CHUNK_WIDTH as i64 + w as i64,
            self.origin.y * CHUNK_HEIGHT as i64 + h as i64,
            self.origin.z * CHUNK_DEPTH as i64 + d as i64,
        ]
    }

    /// Fills every cell from the terrain rules, `samples[i]` being the noise
    /// sampled at the world coordinate of the cell with flat index `i`.
    pub fn generate_data(&mut self, samples: &Vec<NoiseSample>)
        requires
            old(self).wf(),
            samples@.len() == CHUNK_VOLUME,
        ensures
            final(self).wf(),
            final(self).spec_origin() == old(self).spec_origin(),
            forall|i: int|
                0 <= i < CHUNK_VOLUME ==> #[trigger] final(self).spec_data()[i] == spec_block_at(
                    old(self).spec_world_coordinate(cell_h(i), cell_w(i), cell_d(i)),
                    samples@[i],
                ),
    {
        let mut i: usize = 0;
        while i < CHUNK_VOLUME
            invariant
                i <= CHUNK_VOLUME,
                samples@.len() == CHUNK_VOLUME,
                self.wf(),
                self.origin == old(self).origin,
                forall|j: int|
                    0 <= j < i ==> #[trigger] self.data@[j] == spec_block_at(
                        old(self).spec_world_coordinate(cell_h(j), cell_w(j), cell_d(j)),
                        samples@[j],
                    ),
            decreases CHUNK_VOLUME - i,
        {
            proof {
                lemma_cell_coords(i as int);
            }
            let h = i / (CHUNK_WIDTH * CHUNK_DEPTH);
            let w = (i / CHUNK_DEPTH) % CHUNK_WIDTH;
            let d = i % CHUNK_DEPTH;
            let point = self.world_coordinate(h, w, d);
            let block = get_block_at(point, samples[i]);
            self.data.set(i, block);
            i = i + 1;
        }
    }
    /// Whether `face` of cell `(h, w, d)` is seen.
    fn is_exposed(&self, face: Face, h: usize, w: usize, d: usize) -> (r: bool)
        requires
            self.wf(),
            in_grid(h as int, w as int, d as int),
        ensures
            r == self.spec_exposed(face, h as int, w as int, d as int),
    {
        match face {
            Face::Top => h + 1 >= CHUNK_HEIGHT || self.get_block(h + 1, w, d) == BlockId::Air,
            Face::Bottom => h == 0 || self.get_block(h - 1, w, d) == BlockId::Air,
            Face::Right => w + 1 >= CHUNK_WIDTH || self.get_block(h, w + 1, d) == BlockId::Air,
            Face::Left => w == 0 || self.get_block(h, w - 1, d) == BlockId::Air,
            Face::Front => d + 1 >= CHUNK_DEPTH || self.get_block(h, w, d + 1) == BlockId::Air,
            Face::Back => d == 0 || self.get_block(h, w, d - 1) == BlockId::Air,
        }
    }

    /// Appends the quad of `face` of cell `i` where that face is seen.
    fn add_face_if_exposed(
        &self,
        mesh: &mut Mesh,
        atlas: &TextureAtlas,
        i: usize,
        face: Face,
        uv: &BlockUv,
    )
        requires
            self.wf(),
            i < CHUNK_VOLUME,
            Some(*uv) == atlas.spec_uv(self.spec_data()[i as int]),
            old(mesh).wf(),
            old(mesh).spec_vertices().len() + 4 <= u32::MAX + 1,
        ensures
            final(mesh).wf(),
            final(mesh).spec_vertices() == old(mesh).spec_vertices() + self.face_part(
                atlas,
                i as int,
                face,
            ),
            final(mesh).spec_vertices().len() <= old(mesh).spec_vertices().len() + 4,
            final(mesh).spec_translation() == old(mesh).spec_translation(),
    {
        proof {
            lemma_cell_coords(i as int);
            reveal(Chunk::face_part);
        }
        let h = i / (CHUNK_WIDTH * CHUNK_DEPTH);
        let w = (i / CHUNK_DEPTH) % CHUNK_WIDTH;
        let d = i % CHUNK_DEPTH;
        if self.is_exposed(face, h, w, d) {
            match face {
                Face::Top => add_upper_quad_for_block(mesh, h, w, d, uv),
                Face::Bottom => add_bottom_quad_for_block(mesh, h, w, d, uv),
                Face::Right => add_right_quad_for_block(mesh, h, w, d, uv),
                Face::Left => add_left_quad_for_block(mesh, h, w, d, uv),
                Face::Front => add_front_quad_for_block(mesh, h, w, d, uv),
                Face::Back => add_backside_quad_for_block(mesh, h, w, d, uv),
            }
        } else {
            assert(old(mesh).spec_vertices() + self.face_part(atlas, i as int, face)
                =~= old(mesh).spec_vertices());
        }
    }

    /// Appends the quads of the seen faces of cell `i`.
    fn add_cell_quads(&self, mesh: &mut Mesh, atlas: &TextureAtlas, i: usize)
        requires
            self.wf(),
            atlas.wf(),
            self.renderable_with(atlas),
            i < CHUNK_VOLUME,
            old(mesh).wf(),
            old(mesh).spec_vertices().len() + 24 <= u32::MAX + 1,
        ensures
            final(mesh).wf(),
            final(mesh).spec_vertices() == old(mesh).spec_vertices() + self.cell_vertices(
                atlas,
                i as int,
            ),
            final(mesh).spec_vertices().len() <= old(mesh).spec_vertices().len() + 24,
            final(mesh).spec_translation() == old(mesh).spec_translation(),
    {
        let block_id = self.data[i];
        let ghost start = mesh.spec_vertices();
        if block_id != BlockId::Air {
            let uv = atlas.get_block_uv(block_id);
            self.add_face_if_exposed(mesh, atlas, i, Face::Top, uv);
            self.add_face_if_exposed(mesh, atlas, i, Face::Front, uv);
            self.add_face_if_exposed(mesh, atlas, i, Face::Right, uv);
            self.add_face_if_exposed(mesh, atlas, i, Face::Back, uv);
            self.add_face_if_exposed(mesh, atlas, i, Face::Left, uv);
            self.add_face_if_exposed(mesh, atlas, i, Face::Bottom, uv);
            assert(mesh.spec_vertices() =~= start + self.cell_vertices(atlas, i as int));
        } else {
            assert(start + self.cell_vertices(atlas, i as int) =~= start);
        }
    }

    /// The faces of the chunk that are seen, as a mesh: every solid cell, in
    /// flat order, contributes one textured quad for each face whose
    /// neighbour in the chunk is air or lies outside the chunk. The
    /// neighbouring chunks are accepted and not consulted: a face on the
    /// chunk's border is always seen. Vertex positions are in the chunk's own
    /// space, in half blocks; the mesh is drawn at the chunk's grid position
    /// times its extents.
    pub fn generate_mesh(
        &self,
        neighbor_left: Option<&Chunk>,
        neighbor_right: Option<&Chunk>,
        neighbor_front: Option<&Chunk>,
        neighbor_back: Option<&Chunk>,
        atlas: &TextureAtlas,
    ) -> (r: Mesh)
        requires
            self.wf(),
            atlas.wf(),
            self.renderable_with(atlas),
        ensures
            r.wf(),
            r.spec_vertices() == self.mesh_vertices(atlas),
            r.spec_translation() == self.spec_world_offset(),
    {
        let mut mesh = Mesh::empty();
        let mut i: usize = 0;
        while i < CHUNK_VOLUME
            invariant
                i <= CHUNK_VOLUME,
                self.wf(),
                atlas.wf(),
                self.renderable_with(atlas),
                mesh.wf(),
                mesh.spec_vertices() == self.vertices_upto(atlas, i as nat),
                mesh.spec_vertices().len() <= 24 * i,
            decreases CHUNK_VOLUME - i,
        {
            self.add_cell_quads(&mut mesh, atlas, i);
            assert(self.vertices_upto(atlas, (i + 1) as nat) == self.vertices_upto(atlas, i as nat)
                + self.cell_vertices(atlas, i as int));
            i = i + 1;
        }
        let offset = self.world_coordinate(0, 0, 0);
        mesh.set_translation(Point3::new(offset[0], offset[1], offset[2]));
        mesh
    }

    /// A solid block of the chunk that `atlas` has no coordinates for, if
    /// there is one.
    pub fn unregistered_block(&self, atlas: &TextureAtlas) -> (r: Option<BlockId>)
        requires
            self.wf(),
            atlas.wf(),
        ensures
            r is None <==> self.renderable_with(atlas),
            r matches Some(b) ==> b != BlockId::Air && !atlas.has_block(b) && self.spec_data().contains(b),
    {
        let mut i: usize = 0;
        while i < CHUNK_VOLUME
            invariant
                i <= CHUNK_VOLUME,
                self.wf(),
                atlas.wf(),
                forall|j: int|
                    0 <= j < i && #[trigger] self.spec_data()[j] != BlockId::Air
                        ==> atlas.has_block(self.spec_data()[j]),
            decreases CHUNK_VOLUME - i,
        {
            let b = self.data[i];
            if b != BlockId::Air {
                if atlas.find_block_uv(b).is_none() {
                    assert(self.spec_data()[i as int] == b);
                    return Some(b);
                }
            }
            i = i + 1;
        }
        None
    }
}

/// The number of faces of cell `(h, w, d)` that lie on the chunk's border.
pub open spec fn border_face_count(h: int, w: int, d: int) -> nat {
    (if h + 1 >= CHUNK_HEIGHT { 1nat } else { 0nat }) + (if h == 0 { 1nat } else { 0nat })
        + (if w + 1 >= CHUNK_WIDTH { 1nat } else { 0nat }) + (if w == 0 { 1nat } else { 0nat })
        + (if d + 1 >= CHUNK_DEPTH { 1nat } else { 0nat }) + (if d == 0 { 1nat } else { 0nat })
}

impl Chunk {
    /// The number of seen faces of the cell with flat index `i`.
    pub open spec fn exposed_face_count(&self, i: int) -> nat {
        let (h, w, d) = (cell_h(i), cell_w(i), cell_d(i));
        (if self.spec_exposed(Face::Top, h, w, d) { 1nat } else { 0nat })
            + (if self.spec_exposed(Face::Bottom, h, w, d) { 1nat } else { 0nat })
            + (if self.spec_exposed(Face::Right, h, w, d) { 1nat } else { 0nat })
            + (if self.spec_exposed(Face::Left, h, w, d) { 1nat } else { 0nat })
            + (if self.spec_exposed(Face::Front, h, w, d) { 1nat } else { 0nat })
            + (if self.spec_exposed(Face::Back, h, w, d) { 1nat } else { 0nat })
    }
}

proof fn lemma_face_part_len(c: &Chunk, atlas: &TextureAtlas, i: int, face: Face)
    ensures
        c.face_part(atlas, i, face).len() == if c.spec_exposed(
            face,
            cell_h(i),
            cell_w(i),
            cell_d(i),
        ) {
            4nat
        } else {
            0nat
        },
{
    reveal(Chunk::face_part);
}

/// A solid cell contributes one quad, four vertices, for each of its seen
/// faces; an air cell contributes nothing.
pub proof fn lemma_cell_quad_count(c: &Chunk, atlas: &TextureAtlas, i: int)
    ensures
        c.cell_vertices(atlas, i).len() == if c.spec_data()[i] == BlockId::Air {
            0
        } else {
            4 * c.exposed_face_count(i)
        },
{
    lemma_face_part_len(c, atlas, i, Face::Top);
    lemma_face_part_len(c, atlas, i, Face::Bottom);
    lemma_face_part_len(c, atlas, i, Face::Right);
    lemma_face_part_len(c, atlas, i, Face::Left);
    lemma_face_part_len(c, atlas, i, Face::Front);
    lemma_face_part_len(c, atlas, i, Face::Back);
}

/// In a chunk filled with one solid kind, a face is seen exactly where it
/// lies on the chunk's border: a cell yields one quad per border face, and
/// a cell with no face on the border yields none.
pub proof fn lemma_uniform_chunk_faces(c: &Chunk, atlas: &TextureAtlas, b: BlockId, i: int)
    requires
        c.wf(),
        b != BlockId::Air,
        forall|j: int| 0 <= j < CHUNK_VOLUME ==> #[trigger] c.spec_data()[j] == b,
        0 <= i < CHUNK_VOLUME,
    ensures
        forall|f: Face|
            #[trigger] c.spec_exposed(f, cell_h(i), cell_w(i), cell_d(i)) <==> !in_grid(
                neighbor_of(f, cell_h(i), cell_w(i), cell_d(i)).0,
                neighbor_of(f, cell_h(i), cell_w(i), cell_d(i)).1,
                neighbor_of(f, cell_h(i), cell_w(i), cell_d(i)).2,
            ),
        c.cell_vertices(atlas, i).len() == 4 * border_face_count(cell_h(i), cell_w(i), cell_d(i)),
        border_face_count(cell_h(i), cell_w(i), cell_d(i)) == 0 ==> c.cell_vertices(
            atlas,
            i,
        ).len() == 0,
{
    lemma_cell_coords(i);
    let (h, w, d) = (cell_h(i), cell_w(i), cell_d(i));
    assert forall|f: Face|
        #[trigger] c.spec_exposed(f, h, w, d) <==> !in_grid(
            neighbor_of(f, h, w, d).0,
            neighbor_of(f, h, w, d).1,
            neighbor_of(f, h, w, d).2,
        ) by {
        let (nh, nw, nd) = neighbor_of(f, h, w, d);
        if in_grid(nh, nw, nd) {
            lemma_cell_index_in_range(nh, nw, nd);
        }
    }
    assert(c.spec_exposed(Face::Top, h, w, d) == (h + 1 >= CHUNK_HEIGHT));
    assert(c.spec_exposed(Face::Bottom, h, w, d) == (h == 0));
    assert(c.spec_exposed(Face::Right, h, w, d) == (w + 1 >= CHUNK_WIDTH));
    assert(c.spec_exposed(Face::Left, h, w, d) == (w == 0));
    assert(c.spec_exposed(Face::Front, h, w, d) == (d + 1 >= CHUNK_DEPTH));
    assert(c.spec_exposed(Face::Back, h, w, d) == (d == 0));
    lemma_cell_quad_count(c, atlas, i);
}

/// The number of border faces of the first `n` cells, in flat order.
pub open spec fn border_faces_upto(n: nat) -> nat
    decreases n,
{
    if n == 0 {
        0
    } else {
        border_faces_upto((n - 1) as nat) + border_face_count(
            cell_h(n - 1),
            cell_w(n - 1),
            cell_d(n - 1),
        )
    }
}

/// How many of the two ends of an axis of `len` cells the coordinate `x`
/// lies on.
pub open spec fn ends_at(x: int, len: int) -> nat {
    (if x == 0 { 1nat } else { 0nat }) + (if x + 1 >= len { 1nat } else { 0nat })
}

proof fn lemma_row_border_faces(h: int, w: int, k: int)
    requires
        0 <= h < CHUNK_HEIGHT,
        0 <= w < CHUNK_WIDTH,
        0 <= k <= CHUNK_DEPTH,
    ensures
        border_faces_upto((256 * h + 16 * w + k) as nat) == border_faces_upto(
            (256 * h + 16 * w) as nat,
        ) + k * (ends_at(h, 256) + ends_at(w, 16)) + (if k > 0 { 1int } else { 0 }) + (if k
            == 16 {
            1int
        } else {
            0
        }),
    decreases k,
{
    if k > 0 {
        lemma_row_border_faces(h, w, k - 1);
        lemma_cell_index_in_range(h, w, k - 1);
        let n = 256 * h + 16 * w + k;
        assert(cell_index(h, w, k - 1) == n - 1);
        assert(border_faces_upto(n as nat) == border_faces_upto((n - 1) as nat)
            + border_face_count(h, w, k - 1));
        assert(border_face_count(h, w, k - 1) == ends_at(h, 256) + ends_at(w, 16) + ends_at(
            k - 1,
            16,
        ));
        let x: int = (ends_at(h, 256) + ends_at(w, 16)) as int;
        let base = border_faces_upto((256 * h + 16 * w) as nat) as int;
        assert(border_faces_upto((n - 1) as nat) == base + (k - 1) * x + (if k - 1 > 0 {
            1int
        } else {
            0
        }));
        assert(k * x == (k - 1) * x + x) by (nonlinear_arith);
        assert(border_faces_upto(n as nat) == base + k * x + (if k > 0 { 1int } else { 0 }) + (
        if k == 16 {
            1int
        } else {
            0
        }));
    } else {
        let x: int = (ends_at(h, 256) + ends_at(w, 16)) as int;
        assert(k * x == 0) by (nonlinear_arith)
            requires
                k == 0,
        {
        }
    }
}

proof fn lemma_layer_border_faces(h: int, w: int)
    requires
        0 <= h < CHUNK_HEIGHT,
        0 <= w <= CHUNK_WIDTH,
    ensures
        border_faces_upto((256 * h + 16 * w) as nat) == border_faces_upto((256 * h) as nat) + 16 * w
            * ends_at(h, 256) + 16 * ((if w > 0 { 1int } else { 0 }) + (if w == 16 {
            1int
        } else {
            0
        })) + 2 * w,
    decreases w,
{
    if w > 0 {
        lemma_layer_border_faces(h, w - 1);
        lemma_row_border_faces(h, w - 1, 16);
        assert(256 * h + 16 * (w - 1) + 16 == 256 * h + 16 * w);
        let x = ends_at(h, 256);
        let y = ends_at(w - 1, 16);
        assert(16 * (x + y) == 16 * x + 16 * y) by (nonlinear_arith);
        assert(16 * w * x == 16 * (w - 1) * x + 16 * x) by (nonlinear_arith);
    } else {
        let x = ends_at(h, 256);
        assert(16 * w * x == 0) by (nonlinear_arith)
            requires
                w == 0,
        {
        }
    }
}

proof fn lemma_chunk_border_faces(h: int)
    requires
        0 <= h <= CHUNK_HEIGHT,
    ensures
        border_faces_upto((256 * h) as nat) == 256 * ((if h > 0 { 1int } else { 0 }) + (if h
            == 256 {
            1int
        } else {
            0
        })) + 64 * h,
    decreases h,
{
    if h > 0 {
        lemma_chunk_border_faces(h - 1);
        lemma_layer_border_faces(h - 1, 16);
    }
}

proof fn lemma_uniform_vertices_upto(c: &Chunk, atlas: &TextureAtlas, b: BlockId, n: nat)
    requires
        c.wf(),
        b != BlockId::Air,
        forall|j: int| 0 <= j < CHUNK_VOLUME ==> #[trigger] c.spec_data()[j] == b,
        n <= CHUNK_VOLUME,
    ensures
        c.vertices_upto(atlas, n).len() == 4 * border_faces_upto(n),
    decreases n,
{
    if n > 0 {
        lemma_uniform_vertices_upto(c, atlas, b, (n - 1) as nat);
        lemma_uniform_chunk_faces(c, atlas, b, n - 1);
    }
}

/// The mesh of a chunk filled with one solid kind has exactly one quad per
/// face on the chunk's surface: `2 * (H * W + W * D + H * D)` quads, with
/// four vertices and six indices each.
pub proof fn lemma_uniform_chunk_mesh_size(c: &Chunk, atlas: &TextureAtlas, b: BlockId, m: &Mesh)
    requires
        c.wf(),
        b != BlockId::Air,
        forall|j: int| 0 <= j < CHUNK_VOLUME ==> #[trigger] c.spec_data()[j] == b,
        m.wf(),
        m.spec_vertices() == c.mesh_vertices(atlas),
    ensures
        m.spec_vertices().len() == 4 * (2 * (CHUNK_HEIGHT * CHUNK_WIDTH + CHUNK_WIDTH
            * CHUNK_DEPTH + CHUNK_HEIGHT * CHUNK_DEPTH)),
        m.spec_indices().len() == 6 * (2 * (CHUNK_HEIGHT * CHUNK_WIDTH + CHUNK_WIDTH
            * CHUNK_DEPTH + CHUNK_HEIGHT * CHUNK_DEPTH)),
{
    lemma_uniform_vertices_upto(c, atlas, b, CHUNK_VOLUME as nat);
    lemma_chunk_border_faces(256);
    m.lemma_index_count();
}


/// A solid cell whose six neighbours are each air or outside the chunk
/// yields six quads.
pub proof fn lemma_lone_cell_six_quads(c: &Chunk, atlas: &TextureAtlas, i: int)
    requires
        c.wf(),
        0 <= i < CHUNK_VOLUME,
        c.spec_data()[i] != BlockId::Air,
        forall|f: Face|
            {
                let (nh, nw, nd) = #[trigger] neighbor_of(f, cell_h(i), cell_w(i), cell_d(i));
                !in_grid(nh, nw, nd) || c.spec_block(nh, nw, nd) == BlockId::Air
            },
    ensures
        c.cell_vertices(atlas, i).len() == 24,
{
    let (h, w, d) = (cell_h(i), cell_w(i), cell_d(i));
    assert(c.spec_exposed(Face::Top, h, w, d) && c.spec_exposed(Face::Bottom, h, w, d)
        && c.spec_exposed(Face::Right, h, w, d) && c.spec_exposed(Face::Left, h, w, d)
        && c.spec_exposed(Face::Front, h, w, d) && c.spec_exposed(Face::Back, h, w, d)) by {
        let _ = neighbor_of(Face::Top, h, w, d);
        let _ = neighbor_of(Face::Bottom, h, w, d);
        let _ = neighbor_of(Face::Right, h, w, d);
        let _ = neighbor_of(Face::Left, h, w, d);
        let _ = neighbor_of(Face::Front, h, w, d);
        let _ = neighbor_of(Face::Back, h, w, d);
    }
    lemma_cell_quad_count(c, atlas, i);
}

/// A cell whose six neighbours all lie in the chunk and are solid yields no
/// quad.
pub proof fn lemma_enclosed_cell_no_quads(c: &Chunk, atlas: &TextureAtlas, i: int)
    requires
        c.wf(),
        0 <= i < CHUNK_VOLUME,
        forall|f: Face|
            {
                let (nh, nw, nd) = #[trigger] neighbor_of(f, cell_h(i), cell_w(i), cell_d(i));
                in_grid(nh, nw, nd) && c.spec_block(nh, nw, nd) != BlockId::Air
            },
    ensures
        c.cell_vertices(atlas, i).len() == 0,
{
    let (h, w, d) = (cell_h(i), cell_w(i), cell_d(i));
    assert(!c.spec_exposed(Face::Top, h, w, d) && !c.spec_exposed(Face::Bottom, h, w, d)
        && !c.spec_exposed(Face::Right, h, w, d) && !c.spec_exposed(Face::Left, h, w, d)
        && !c.spec_exposed(Face::Front, h, w, d) && !c.spec_exposed(Face::Back, h, w, d)) by {
        let _ = neighbor_of(Face::Top, h, w, d);
        let _ = neighbor_of(Face::Bottom, h, w, d);
        let _ = neighbor_of(Face::Right, h, w, d);
        let _ = neighbor_of(Face::Left, h, w, d);
        let _ = neighbor_of(Face::Front, h, w, d);
        let _ = neighbor_of(Face::Back, h, w, d);
    }
    lemma_cell_quad_count(c, atlas, i);
}

proof fn lemma_vertices_upto_single(c: &Chunk, atlas: &TextureAtlas, i: int, n: nat)
    requires
        c.wf(),
        0 <= i,
        forall|j: int| 0 <= j < CHUNK_VOLUME && j != i ==> #[trigger] c.spec_data()[j] == BlockId::Air,
        n <= CHUNK_VOLUME,
    ensures
        c.vertices_upto(atlas, n) == if i < n {
            c.cell_vertices(atlas, i)
        } else {
            seq![]
        },
    decreases n,
{
    if n > 0 {
        lemma_vertices_upto_single(c, atlas, i, (n - 1) as nat);
        let j = n - 1;
        if j != i {
            assert(c.cell_vertices(atlas, j) =~= seq![]);
        }
        assert(c.vertices_upto(atlas, n) == c.vertices_upto(atlas, (n - 1) as nat) + c.cell_vertices(
            atlas,
            j,
        ));
        if i < j {
            assert(c.vertices_upto(atlas, n) =~= c.cell_vertices(atlas, i));
        } else if i == j {
            assert(c.vertices_upto(atlas, n) =~= c.cell_vertices(atlas, i));
        } else {
            assert(c.vertices_upto(atlas, n) =~= seq![]);
        }
    } else {
        assert(c.vertices_upto(atlas, n) =~= seq![]);
    }
}

/// A chunk holding a single solid block, anywhere (a corner of the grid
/// included), yields a mesh of exactly six quads: the faces of that block.
pub proof fn lemma_single_block_mesh(c: &Chunk, atlas: &TextureAtlas, i: int)
    requires
        c.wf(),
        0 <= i < CHUNK_VOLUME,
        c.spec_data()[i] != BlockId::Air,
        forall|j: int| 0 <= j < CHUNK_VOLUME && j != i ==> #[trigger] c.spec_data()[j] == BlockId::Air,
    ensures
        c.mesh_vertices(atlas) == c.cell_vertices(atlas, i),
        c.mesh_vertices(atlas).len() == 24,
{
    lemma_vertices_upto_single(c, atlas, i, CHUNK_VOLUME as nat);
    lemma_cell_coords(i);
    assert forall|f: Face|
        {
            let (nh, nw, nd) = #[trigger] neighbor_of(f, cell_h(i), cell_w(i), cell_d(i));
            !in_grid(nh, nw, nd) || c.spec_block(nh, nw, nd) == BlockId::Air
        } by {
        let (nh, nw, nd) = neighbor_of(f, cell_h(i), cell_w(i), cell_d(i));
        if in_grid(nh, nw, nd) {
            lemma_cell_index_in_range(nh, nw, nd);
        }
    }
    lemma_lone_cell_six_quads(c, atlas, i);
}

/// Two meshes that both meet `generate_mesh`'s promise for the same chunk
/// and atlas are the same mesh: extracting twice gives identical vertices,
/// indices and placement.
pub proof fn lemma_extraction_idempotent(c: &Chunk, atlas: &TextureAtlas, m1: &Mesh, m2: &Mesh)
    requires
        m1.wf(),
        m2.wf(),
        m1.spec_vertices() == c.mesh_vertices(atlas),
        m2.spec_vertices() == c.mesh_vertices(atlas),
        m1.spec_translation() == c.spec_world_offset(),
        m2.spec_translation() == c.spec_world_offset(),
    ensures
        m1.spec_vertices() == m2.spec_vertices(),
        m1.spec_indices() == m2.spec_indices(),
        m1.spec_translation() == m2.spec_translation(),
{
    m1.lemma_wf_indices();
    m2.lemma_wf_indices();
}

/// Quad `q` (vertices `4q .. 4q + 4`) of a vertex list.
pub open spec fn quad_at(s: Seq<Vertex>, q: int) -> Seq<Vertex> {
    s.subrange(4 * q, 4 * q + 4)
}

impl Chunk {
    /// `quad` is the quad of a seen face of a solid cell, textured with the
    /// atlas coordinates of that cell's kind.
    pub open spec fn is_emitted_quad(&self, atlas: &TextureAtlas, quad: Seq<Vertex>) -> bool {
        exists|i: int, f: Face|
            0 <= i < CHUNK_VOLUME && self.spec_data()[i] != BlockId::Air && #[trigger] self.spec_exposed(
                f,
                cell_h(i),
                cell_w(i),
                cell_d(i),
            ) && quad == face_quad(
                cell_h(i),
                cell_w(i),
                cell_d(i),
                f,
                atlas.spec_uv(self.spec_data()[i])->0,
            )
    }

    /// `s` is made of whole quads, each an emitted quad.
    pub open spec fn all_quads_emitted(&self, atlas: &TextureAtlas, s: Seq<Vertex>) -> bool {
        &&& s.len() % 4 == 0
        &&& forall|q: int|
            0 <= q < s.len() / 4 ==> self.is_emitted_quad(atlas, #[trigger] quad_at(s, q))
    }
}

proof fn lemma_append_emitted(c: &Chunk, atlas: &TextureAtlas, s: Seq<Vertex>, t: Seq<Vertex>)
    requires
        c.all_quads_emitted(atlas, s),
        t.len() == 0 || (t.len() == 4 && c.is_emitted_quad(atlas, t)),
    ensures
        c.all_quads_emitted(atlas, s + t),
{
    let u = s + t;
    assert forall|q: int| 0 <= q < u.len() / 4 implies c.is_emitted_quad(
        atlas,
        #[trigger] quad_at(u, q),
    ) by {
        if q < s.len() / 4 {
            assert(quad_at(u, q) =~= quad_at(s, q));
        } else {
            assert(quad_at(u, q) =~= t);
        }
    }
}

proof fn lemma_face_emitted(c: &Chunk, atlas: &TextureAtlas, s: Seq<Vertex>, i: int, f: Face)
    requires
        0 <= i < CHUNK_VOLUME,
        c.spec_data()[i] != BlockId::Air,
        c.all_quads_emitted(atlas, s),
    ensures
        c.all_quads_emitted(atlas, s + c.face_part(atlas, i, f)),
{
    reveal(Chunk::face_part);
    if c.spec_exposed(f, cell_h(i), cell_w(i), cell_d(i)) {
        assert(c.is_emitted_quad(atlas, c.face_part(atlas, i, f)));
    }
    lemma_append_emitted(c, atlas, s, c.face_part(atlas, i, f));
}

proof fn lemma_cell_emitted(c: &Chunk, atlas: &TextureAtlas, s: Seq<Vertex>, i: int)
    requires
        0 <= i < CHUNK_VOLUME,
        c.all_quads_emitted(atlas, s),
    ensures
        c.all_quads_emitted(atlas, s + c.cell_vertices(atlas, i)),
{
    if c.spec_data()[i] == BlockId::Air {
        assert(s + c.cell_vertices(atlas, i) =~= s);
    } else {
        let a1 = s + c.face_part(atlas, i, Face::Top);
        lemma_face_emitted(c, atlas, s, i, Face::Top);
        let a2 = a1 + c.face_part(atlas, i, Face::Front);
        lemma_face_emitted(c, atlas, a1, i, Face::Front);
        let a3 = a2 + c.face_part(atlas, i, Face::Right);
        lemma_face_emitted(c, atlas, a2, i, Face::Right);
        let a4 = a3 + c.face_part(atlas, i, Face::Back);
        lemma_face_emitted(c, atlas, a3, i, Face::Back);
        let a5 = a4 + c.face_part(atlas, i, Face::Left);
        lemma_face_emitted(c, atlas, a4, i, Face::Left);
        let a6 = a5 + c.face_part(atlas, i, Face::Bottom);
        lemma_face_emitted(c, atlas, a5, i, Face::Bottom);
        assert(a6 =~= s + c.cell_vertices(atlas, i));
    }
}

proof fn lemma_vertices_upto_emitted(c: &Chunk, atlas: &TextureAtlas, n: nat)
    requires
        c.wf(),
        n <= CHUNK_VOLUME,
    ensures
        c.all_quads_emitted(atlas, c.vertices_upto(atlas, n)),
    decreases n,
{
    if n == 0 {
        assert(c.vertices_upto(atlas, 0) =~= seq![]);
    } else {
        lemma_vertices_upto_emitted(c, atlas, (n - 1) as nat);
        lemma_cell_emitted(c, atlas, c.vertices_upto(atlas, (n - 1) as nat), n - 1);
    }
}

/// Every quad of a chunk's mesh is the quad of a seen face of a solid
/// cell: its positions, normal and texture coordinates are that face's, and
/// its four texture coordinates are exactly the atlas's coordinates for that
/// face of that cell's kind, in order.
pub proof fn lemma_uv_round_trip(c: &Chunk, atlas: &TextureAtlas, q: int)
    requires
        c.wf(),
        0 <= q < c.mesh_vertices(atlas).len() / 4,
    ensures
        c.mesh_vertices(atlas).len() % 4 == 0,
        exists|i: int, f: Face|
            0 <= i < CHUNK_VOLUME && c.spec_data()[i] != BlockId::Air && #[trigger] c.spec_exposed(
                f,
                cell_h(i),
                cell_w(i),
                cell_d(i),
            ) && quad_at(c.mesh_vertices(atlas), q) == face_quad(
                cell_h(i),
                cell_w(i),
                cell_d(i),
                f,
                atlas.spec_uv(c.spec_data()[i])->0,
            ) && forall|k: int|
                0 <= k < 4 ==> (#[trigger] c.mesh_vertices(atlas)[4 * q + k]).uv == (atlas.spec_uv(
                    c.spec_data()[i],
                )->0).spec_face(f)@[k],
{
    let mv = c.mesh_vertices(atlas);
    lemma_vertices_upto_emitted(c, atlas, CHUNK_VOLUME as nat);
    assert(c.is_emitted_quad(atlas, quad_at(mv, q)));
    let (i, f) = choose|i: int, f: Face|
        0 <= i < CHUNK_VOLUME && c.spec_data()[i] != BlockId::Air && #[trigger] c.spec_exposed(
            f,
            cell_h(i),
            cell_w(i),
            cell_d(i),
        ) && quad_at(mv, q) == face_quad(
            cell_h(i),
            cell_w(i),
            cell_d(i),
            f,
            atlas.spec_uv(c.spec_data()[i])->0,
        );
    assert forall|k: int| 0 <= k < 4 implies (#[trigger] mv[4 * q + k]).uv == (atlas.spec_uv(
        c.spec_data()[i],
    )->0).spec_face(f)@[k] by {
        assert(mv[4 * q + k] == quad_at(mv, q)[k]);
    }
}

} // verus!
