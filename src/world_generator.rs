//! Terrain rules: which block stands at a world coordinate, given the noise
//! sampled there.
//!
//! Heights are split into four half-open bands, from the bottom up: rock
//! with caves, solid dirt, rolling hills of grass, and empty sky. The noise
//! fields themselves are sampled by the caller and handed in as a
//! `NoiseSample`.
use vstd::prelude::*;

use crate::block::BlockId;

verus! {

/// Top (exclusive) of the rock band.
pub const ROCK_MAX_HEIGHT: i64 = 100;

/// Top (exclusive) of the dirt band.
pub const DIRT_LAYER_HEIGHT: i64 = 120;

/// Top (exclusive) of the hill band.
pub const HILL_LAYER_HEIGHT: i64 = 148;

/// Height of the tallest hill above the dirt band.
pub const HILL_MAX_HEIGHT: i64 = 32;

/// Bit pattern of the IEEE-754 double `0.5`.
pub const HALF_BITS: u64 = 0x3fe0_0000_0000_0000;

/// Bit pattern of the IEEE-754 double `+inf`.
pub const POSITIVE_INFINITY_BITS: u64 = 0x7ff0_0000_0000_0000;

/// The height bands of the world.
#[derive(Copy, Clone, Debug, PartialEq, Eq, Structural)]
pub enum Band {
    Rock,
    Dirt,
    Hill,
    Sky,
}

/// The noise that decides the block at one coordinate.
#[derive(Copy, Clone, Debug, PartialEq, Eq, Structural)]
pub struct NoiseSample {
    /// The IEEE-754 bit pattern of the 3D cave noise at the coordinate.
    /// Read in the rock band only.
    pub cave_noise_bits: u64,
    /// The column's surface: the least integer not below
    /// `DIRT_LAYER_HEIGHT + (h + 1) / 2 * HILL_MAX_HEIGHT`, where `h` is the
    /// 2D hill noise at the column. Read in the hill band only.
    pub surface_height: i64,
}

pub open spec fn spec_band_of(y: i64) -> Band {
    if y < ROCK_MAX_HEIGHT {
        Band::Rock
    } else if y < DIRT_LAYER_HEIGHT {
        Band::Dirt
    } else if y < HILL_LAYER_HEIGHT {
        Band::Hill
    } else {
        Band::Sky
    }
}

/// The block a cave noise value gives in the rock band: stone where it lies
/// in `(0, 0.5)`, dirt where it is at least `0.5`, air where it is not above
/// zero (or is not a number).
///
/// For a double without its sign bit the order of bit patterns is the
/// numeric order, `+0` has the pattern zero, and the patterns above `+inf`
/// are not numbers; every pattern with the sign bit lies above those.
pub open spec fn spec_cave_block(bits: u64) -> BlockId {
    if 0 < bits && bits < HALF_BITS {
        BlockId::Stone
    } else if HALF_BITS <= bits && bits <= POSITIVE_INFINITY_BITS {
        BlockId::Dirt
    } else {
        BlockId::Air
    }
}

/// The block at `point` (x, y, z with y the height) under `sample`.
pub open spec fn spec_block_at(point: [i64; 3], sample: NoiseSample) -> BlockId {
    let y = point[1];
    match spec_band_of(y) {
        Band::Rock => spec_cave_block(sample.cave_noise_bits),
        Band::Dirt => BlockId::Dirt,
        Band::Hill => if y < sample.surface_height {
            BlockId::Grass
        } else {
            BlockId::Air
        },
        Band::Sky => BlockId::Air,
    }
}

/// The band that height `y` falls in.
pub fn band_of(y: i64) -> (r: Band)
    ensures
        r == spec_band_of(y),
{
    if y < ROCK_MAX_HEIGHT {
        Band::Rock
    } else if y < DIRT_LAYER_HEIGHT {
        Band::Dirt
    } else if y < HILL_LAYER_HEIGHT {
        Band::Hill
    } else {
        Band::Sky
    }
}

/// The block that a cave noise value gives in the rock band.
pub fn cave_block(bits: u64) -> (r: BlockId)
    ensures
        r == spec_cave_block(bits),
{
    if 0 < bits && bits < HALF_BITS {
        BlockId::Stone
    } else if HALF_BITS <= bits && bits <= POSITIVE_INFINITY_BITS {
        BlockId::Dirt
    } else {
        BlockId::Air
    }
}

/// The block at `point` under the noise sampled there.
pub fn get_block_at(point: [i64; 3], sample: NoiseSample) -> (r: BlockId)
    ensures
        r == spec_block_at(point, sample),
{
    let y = point[1];
    match band_of(y) {
        Band::Rock => cave_block(sample.cave_noise_bits),
        Band::Dirt => BlockId::Dirt,
        Band::Hill => {
            if y < sample.surface_height {
                BlockId::Grass
            } else {
                BlockId::Air
            }
        },
        Band::Sky => BlockId::Air,
    }
}

/// The block at a coordinate is fixed by its height and the noise sampled
/// there: the terrain rules read nothing else.
pub proof fn lemma_block_fixed_by_height_and_sample(
    p: [i64; 3],
    q: [i64; 3],
    s: NoiseSample,
    t: NoiseSample,
)
    requires
        p[1] == q[1],
        s == t,
    ensures
        spec_block_at(p, s) == spec_block_at(q, t),
{
}

/// Everything at or above the hill band is air.
pub proof fn lemma_sky_is_empty(point: [i64; 3], sample: NoiseSample)
    requires
        point[1] >= HILL_LAYER_HEIGHT,
    ensures
        spec_block_at(point, sample) == BlockId::Air,
{
}

/// The bands cover every height once: each height lies in exactly the band
/// whose half-open range holds it.
pub proof fn lemma_bands_partition(y: i64)
    ensures
        (spec_band_of(y) == Band::Rock) == (y < ROCK_MAX_HEIGHT),
        (spec_band_of(y) == Band::Dirt) == (ROCK_MAX_HEIGHT <= y < DIRT_LAYER_HEIGHT),
        (spec_band_of(y) == Band::Hill) == (DIRT_LAYER_HEIGHT <= y < HILL_LAYER_HEIGHT),
        (spec_band_of(y) == Band::Sky) == (HILL_LAYER_HEIGHT <= y),
{
}

/// The number of grass blocks in a column whose surface is `surface`, among
/// the heights from the bottom of the hill band up to (not including) `top`.
pub open spec fn grass_below(x: i64, z: i64, surface: i64, top: int) -> nat
    decreases top - DIRT_LAYER_HEIGHT,
{
    if top <= DIRT_LAYER_HEIGHT {
        0
    } else {
        let y = (top - 1) as i64;
        let sample = NoiseSample { cave_noise_bits: 0, surface_height: surface };
        grass_below(x, z, surface, top - 1) + if spec_block_at([x, y, z], sample)
            == BlockId::Grass {
            1nat
        } else {
            0nat
        }
    }
}

/// The number of grass blocks in the hill band of a column.
pub open spec fn column_grass(x: i64, z: i64, surface: i64) -> nat {
    grass_below(x, z, surface, HILL_LAYER_HEIGHT as int)
}

proof fn lemma_grass_below_closed_form(x: i64, z: i64, surface: i64, top: int)
    requires
        top <= HILL_LAYER_HEIGHT,
    ensures
        grass_below(x, z, surface, top) == if top <= DIRT_LAYER_HEIGHT {
            0
        } else if surface <= DIRT_LAYER_HEIGHT {
            0
        } else if surface < top {
            (surface - DIRT_LAYER_HEIGHT) as nat
        } else {
            (top - DIRT_LAYER_HEIGHT) as nat
        },
    decreases top - DIRT_LAYER_HEIGHT,
{
    if top > DIRT_LAYER_HEIGHT {
        lemma_grass_below_closed_form(x, z, surface, top - 1);
    }
}

/// In the hill band a column holds grass exactly below its surface, so the
/// grass in a column is `surface - DIRT_LAYER_HEIGHT` blocks, cut to the
/// band's height, and never shrinks as the surface rises (ties at the
/// surface itself are air).
pub proof fn lemma_grass_monotone(x: i64, z: i64, s1: i64, s2: i64)
    requires
        s1 <= s2,
    ensures
        column_grass(x, z, s1) <= column_grass(x, z, s2),
        column_grass(x, z, s1) == if s1 <= DIRT_LAYER_HEIGHT {
            0
        } else if s1 < HILL_LAYER_HEIGHT {
            (s1 - DIRT_LAYER_HEIGHT) as nat
        } else {
            (HILL_LAYER_HEIGHT - DIRT_LAYER_HEIGHT) as nat
        },
        forall|y: i64|
            DIRT_LAYER_HEIGHT <= y < HILL_LAYER_HEIGHT ==> (spec_block_at(
                [x, y, z],
                NoiseSample { cave_noise_bits: 0, surface_height: s1 },
            ) == BlockId::Grass <==> y < s1),
{
    lemma_grass_below_closed_form(x, z, s1, HILL_LAYER_HEIGHT as int);
    lemma_grass_below_closed_form(x, z, s2, HILL_LAYER_HEIGHT as int);
}

} // verus!
