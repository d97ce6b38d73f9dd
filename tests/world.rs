use voxel_world::block::BlockId;
use voxel_world::world_generator::{
    band_of, cave_block, get_block_at, Band, NoiseSample, DIRT_LAYER_HEIGHT, HILL_LAYER_HEIGHT,
    ROCK_MAX_HEIGHT,
};

fn sample(cave: f64, surface: i64) -> NoiseSample {
    NoiseSample { cave_noise_bits: cave.to_bits(), surface_height: surface }
}

#[test]
fn bands_are_half_open() {
    assert_eq!(band_of(-5), Band::Rock);
    assert_eq!(band_of(ROCK_MAX_HEIGHT - 1), Band::Rock);
    assert_eq!(band_of(ROCK_MAX_HEIGHT), Band::Dirt);
    assert_eq!(band_of(DIRT_LAYER_HEIGHT - 1), Band::Dirt);
    assert_eq!(band_of(DIRT_LAYER_HEIGHT), Band::Hill);
    assert_eq!(band_of(HILL_LAYER_HEIGHT - 1), Band::Hill);
    assert_eq!(band_of(HILL_LAYER_HEIGHT), Band::Sky);
    assert_eq!((ROCK_MAX_HEIGHT, DIRT_LAYER_HEIGHT, HILL_LAYER_HEIGHT), (100, 120, 148));
}

#[test]
fn sky_is_empty() {
    for y in [148i64, 149, 200, 1000, i64::MAX] {
        for s in [sample(0.25, 1000), sample(0.9, i64::MAX), sample(-1.0, 0)] {
            assert_eq!(get_block_at([3, y, -7], s), BlockId::Air);
        }
    }
}

#[test]
fn cave_noise_thresholds() {
    assert_eq!(cave_block(0.25f64.to_bits()), BlockId::Stone);
    assert_eq!(cave_block(f64::MIN_POSITIVE.to_bits()), BlockId::Stone);
    assert_eq!(cave_block(0.49999f64.to_bits()), BlockId::Stone);
    assert_eq!(cave_block(0.5f64.to_bits()), BlockId::Dirt);
    assert_eq!(cave_block(1.0f64.to_bits()), BlockId::Dirt);
    assert_eq!(cave_block(f64::INFINITY.to_bits()), BlockId::Dirt);
    assert_eq!(cave_block(0.0f64.to_bits()), BlockId::Air);
    assert_eq!(cave_block((-0.0f64).to_bits()), BlockId::Air);
    assert_eq!(cave_block((-0.3f64).to_bits()), BlockId::Air);
    assert_eq!(cave_block(f64::NAN.to_bits()), BlockId::Air);
    assert_eq!(cave_block(f64::NEG_INFINITY.to_bits()), BlockId::Air);
}

#[test]
fn rock_band_follows_cave_noise() {
    assert_eq!(get_block_at([0, 50, 0], sample(0.3, 0)), BlockId::Stone);
    assert_eq!(get_block_at([0, 99, 0], sample(0.7, 0)), BlockId::Dirt);
    assert_eq!(get_block_at([0, 0, 0], sample(-0.7, 0)), BlockId::Air);
}

#[test]
fn dirt_band_is_solid() {
    for y in 100..120 {
        assert_eq!(get_block_at([9, y, 9], sample(-1.0, 0)), BlockId::Dirt);
    }
}

#[test]
fn hill_surface_is_strict() {
    assert_eq!(get_block_at([1, 129, 1], sample(0.0, 130)), BlockId::Grass);
    assert_eq!(get_block_at([1, 130, 1], sample(0.0, 130)), BlockId::Air);
    assert_eq!(get_block_at([1, 120, 1], sample(0.0, 120)), BlockId::Air);
    assert_eq!(get_block_at([1, 147, 1], sample(0.0, 152)), BlockId::Grass);
}

#[test]
fn grass_grows_with_surface() {
    let mut last = 0;
    for surface in 100..170 {
        let count = (DIRT_LAYER_HEIGHT..HILL_LAYER_HEIGHT)
            .filter(|&y| get_block_at([4, y, 4], sample(0.0, surface)) == BlockId::Grass)
            .count();
        assert!(count >= last);
        let expected = (surface - DIRT_LAYER_HEIGHT).clamp(0, HILL_LAYER_HEIGHT - DIRT_LAYER_HEIGHT);
        assert_eq!(count as i64, expected);
        last = count;
    }
}

#[test]
fn same_input_same_block() {
    let s = sample(0.3, 131);
    for y in [10i64, 110, 125, 140, 160] {
        let first = get_block_at([12, y, -3], s);
        for _ in 0..3 {
            assert_eq!(get_block_at([12, y, -3], s), first);
        }
    }
}
