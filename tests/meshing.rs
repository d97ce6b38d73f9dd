use voxel_world::block::BlockId;
use voxel_world::chunk::{Chunk, CHUNK_DEPTH, CHUNK_HEIGHT, CHUNK_VOLUME, CHUNK_WIDTH};
use voxel_world::mesh::{Mesh, Point3, Vertex};
use voxel_world::texture_atlas::{AtlasImage, Fraction, TextureAtlas, TextureAtlasCoords};
use voxel_world::world_generator::NoiseSample;

fn atlas() -> TextureAtlas {
    let image = AtlasImage::from_rgba(1, 1, vec![255u8; 4]).unwrap();
    TextureAtlas::from_image("blocks.png".to_string(), image).with_blocks(
        6,
        &vec![BlockId::Dirt, BlockId::Grass, BlockId::Stone],
    )
}

fn origin() -> Chunk {
    Chunk::new(Point3::new(0, 0, 0))
}

fn extract(chunk: &Chunk, atlas: &TextureAtlas) -> Mesh {
    chunk.generate_mesh(None, None, None, None, atlas)
}

fn p(x: i64, y: i64, z: i64) -> Point3 {
    Point3::new(x, y, z)
}

#[test]
fn empty_quad_list() {
    let mesh = Mesh::empty();
    assert!(mesh.vertices().is_empty());
    assert!(mesh.indices().is_empty());
    assert_eq!(mesh.translation(), p(0, 0, 0));
}

#[test]
fn quads_get_fresh_indices() {
    let uv = TextureAtlasCoords::new(Fraction { num: 0, den: 1 }, Fraction { num: 0, den: 1 });
    let v = Vertex::new(p(0, 0, 0), p(0, 1, 0), uv);
    let mut mesh = Mesh::empty();
    mesh.add_quad([v; 4]);
    mesh.add_quad([v; 4]);
    mesh.add_quad([v; 4]);
    assert_eq!(mesh.vertices().len(), 12);
    assert_eq!(
        *mesh.indices(),
        vec![0, 1, 2, 0, 2, 3, 4, 5, 6, 4, 6, 7, 8, 9, 10, 8, 10, 11]
    );
}

#[test]
fn new_chunk_is_air_and_meshes_to_nothing() {
    let chunk = origin();
    assert_eq!(chunk.get_block(0, 0, 0), BlockId::Air);
    assert_eq!(chunk.get_block(CHUNK_HEIGHT - 1, CHUNK_WIDTH - 1, CHUNK_DEPTH - 1), BlockId::Air);
    let mesh = extract(&chunk, &atlas());
    assert!(mesh.vertices().is_empty());
    assert!(mesh.indices().is_empty());
}

#[test]
fn corner_block_shows_six_faces() {
    let atlas = atlas();
    let mut chunk = origin();
    chunk.set_block(0, 0, 0, BlockId::Grass);
    let mesh = extract(&chunk, &atlas);
    assert_eq!(mesh.vertices().len(), 24);
    assert_eq!(mesh.indices().len(), 36);
    let top: Vec<Point3> = mesh.vertices()[0..4].iter().map(|v| v.position).collect();
    assert_eq!(top, vec![p(1, 1, -1), p(1, 1, 1), p(-1, 1, 1), p(-1, 1, -1)]);
    let normals: Vec<Point3> = mesh.vertices().iter().step_by(4).map(|v| v.normal).collect();
    assert_eq!(
        normals,
        vec![p(0, 1, 0), p(0, 0, 1), p(1, 0, 0), p(0, 0, -1), p(-1, 0, 0), p(0, -1, 0)]
    );
}

#[test]
fn enclosed_block_shows_nothing() {
    let atlas = atlas();
    let mut chunk = origin();
    chunk.set_block(5, 5, 5, BlockId::Stone);
    let alone = extract(&chunk, &atlas);
    assert_eq!(alone.vertices().len(), 24);
    for (h, w, d) in [(6, 5, 5), (4, 5, 5), (5, 6, 5), (5, 4, 5), (5, 5, 6), (5, 5, 4)] {
        chunk.set_block(h, w, d, BlockId::Dirt);
    }
    let mesh = extract(&chunk, &atlas);
    // six neighbours with five seen faces each; the middle block adds none
    assert_eq!(mesh.vertices().len(), 6 * 5 * 4);
    assert!(mesh.vertices().iter().all(|v| v.uv.uv_x.num < 2));
}

#[test]
fn solid_cube_hides_its_centre() {
    let atlas = atlas();
    let mut chunk = origin();
    for h in 0..3 {
        for w in 0..3 {
            for d in 0..3 {
                chunk.set_block(h + 1, w + 1, d + 1, BlockId::Dirt);
            }
        }
    }
    let mesh = extract(&chunk, &atlas);
    assert_eq!(mesh.vertices().len(), 54 * 4);
    assert_eq!(mesh.indices().len(), 54 * 6);
    // the centre cell's corners are all odd and at 3 or 5 on every axis:
    // no quad lies wholly inside the cube
    for quad in mesh.vertices().chunks(4) {
        let inside = quad.iter().all(|v| {
            [v.position.x, v.position.y, v.position.z].iter().all(|&c| c == 3 || c == 5)
        });
        assert!(!inside);
    }
}

#[test]
fn full_chunk_shows_its_surface() {
    let atlas = atlas();
    let mut chunk = origin();
    for h in 0..CHUNK_HEIGHT {
        for w in 0..CHUNK_WIDTH {
            for d in 0..CHUNK_DEPTH {
                chunk.set_block(h, w, d, BlockId::Stone);
            }
        }
    }
    let mesh = extract(&chunk, &atlas);
    let quads = 2 * (CHUNK_HEIGHT * CHUNK_WIDTH + CHUNK_WIDTH * CHUNK_DEPTH + CHUNK_HEIGHT * CHUNK_DEPTH);
    assert_eq!(mesh.vertices().len(), quads * 4);
    assert_eq!(mesh.indices().len(), quads * 6);
}

#[test]
fn quad_coordinates_come_from_atlas() {
    let atlas = atlas();
    let mut chunk = origin();
    chunk.set_block(0, 0, 0, BlockId::Stone);
    chunk.set_block(10, 3, 7, BlockId::Dirt);
    let mesh = extract(&chunk, &atlas);
    assert_eq!(mesh.vertices().len(), 48);
    let stone = atlas.get_block_uv(BlockId::Stone);
    let dirt = atlas.get_block_uv(BlockId::Dirt);
    let order = |uv: &voxel_world::texture_atlas::BlockUv| {
        vec![uv.top, uv.front, uv.right, uv.back, uv.left, uv.bottom]
    };
    let expected: Vec<_> = order(stone).into_iter().chain(order(dirt)).collect();
    for (q, quad) in mesh.vertices().chunks(4).enumerate() {
        for k in 0..4 {
            assert_eq!(quad[k].uv, expected[q][k]);
        }
    }
}

#[test]
fn extraction_is_repeatable() {
    let atlas = atlas();
    let mut chunk = Chunk::new(Point3::new(2, 0, -1));
    chunk.set_block(3, 4, 5, BlockId::Grass);
    chunk.set_block(3, 4, 6, BlockId::Dirt);
    chunk.set_block(200, 15, 0, BlockId::Stone);
    let a = extract(&chunk, &atlas);
    let b = extract(&chunk, &atlas);
    assert_eq!(a.vertices(), b.vertices());
    assert_eq!(a.indices(), b.indices());
    assert_eq!(a.translation(), b.translation());
    assert_eq!(a.translation(), p(32, 0, -16));
}

#[test]
fn unregistered_kind_is_reported() {
    let atlas = atlas();
    let mut chunk = origin();
    chunk.set_block(1, 1, 1, BlockId::Dirt);
    assert_eq!(chunk.unregistered_block(&atlas), None);
    chunk.set_block(2, 2, 2, BlockId::Water);
    assert_eq!(chunk.unregistered_block(&atlas), Some(BlockId::Water));
}

#[test]
fn cells_map_to_world_coordinates() {
    let chunk = Chunk::new(Point3::new(1, 0, -2));
    assert_eq!(chunk.world_coordinate(0, 0, 0), [16, 0, -32]);
    assert_eq!(chunk.world_coordinate(7, 3, 15), [19, 7, -17]);
    assert_eq!(CHUNK_VOLUME, CHUNK_HEIGHT * CHUNK_WIDTH * CHUNK_DEPTH);
}

#[test]
fn generation_follows_samples() {
    let mut chunk = Chunk::new(Point3::new(0, 0, 0));
    let mut samples = Vec::new();
    for h in 0..CHUNK_HEIGHT {
        for _w in 0..CHUNK_WIDTH {
            for d in 0..CHUNK_DEPTH {
                let cave = if d < 8 { 0.25f64 } else { -0.25f64 };
                samples.push(NoiseSample { cave_noise_bits: cave.to_bits(), surface_height: 130 + (h as i64 % 2) });
            }
        }
    }
    chunk.generate_data(&samples);
    assert_eq!(chunk.get_block(0, 0, 0), BlockId::Stone);
    assert_eq!(chunk.get_block(0, 0, 8), BlockId::Air);
    assert_eq!(chunk.get_block(99, 5, 12), BlockId::Air);
    assert_eq!(chunk.get_block(100, 5, 12), BlockId::Dirt);
    assert_eq!(chunk.get_block(119, 5, 12), BlockId::Dirt);
    assert_eq!(chunk.get_block(129, 5, 12), BlockId::Grass);
    assert_eq!(chunk.get_block(130, 5, 12), BlockId::Air);
    assert_eq!(chunk.get_block(131, 5, 12), BlockId::Air);
    assert_eq!(chunk.get_block(147, 0, 0), BlockId::Air);
    assert_eq!(chunk.get_block(255, 0, 0), BlockId::Air);
    let again = {
        let mut c = Chunk::new(Point3::new(0, 0, 0));
        c.generate_data(&samples);
        c
    };
    for (h, w, d) in [(0, 0, 0), (50, 3, 9), (125, 15, 15)] {
        assert_eq!(chunk.get_block(h, w, d), again.get_block(h, w, d));
    }
}
