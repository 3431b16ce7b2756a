//! The noise height field behind the `PerlinTerrain` strategy, and the
//! band classifier that turns a height sample into a tile kind.
//!
//! The height field is multi-octave coherent noise (fractal Brownian motion
//! over Perlin noise, keyed by the seed) sampled over a square grid. A
//! sample crosses the trusted boundary as the raw IEEE 754 bit pattern of
//! the sampled value; everything after that — ordering the samples and
//! classifying them into height bands — is verified integer logic.
//!
//! Ordering: for the finite values the sampler produces, mapping a bit
//! pattern with the sign bit set to the negated magnitude, and one without
//! to the magnitude itself, orders bit patterns exactly as the sampled
//! values order. The band thresholds are held in that same order-key form,
//! pre-divided by the height-scale factor, so `classify_bits` compares the
//! raw sample directly against them. The thresholds are tunable constants:
//! they are the configuration that makes the classifier reproducible.

use vstd::prelude::*;

verus! {

use crate::tiles::Tile;

#[verifier::external_type_specification]
#[verifier::external_body]
pub struct ExNoiseMap(noise::utils::NoiseMap);

/// The side length, in samples, of a built noise plane.
pub uninterp spec fn plane_side(m: noise::utils::NoiseMap) -> nat;

/// What a built noise plane holds: the IEEE 754 bit patterns of its
/// samples, row-major (`y` outer, `x` inner).
pub uninterp spec fn plane_bits(m: noise::utils::NoiseMap) -> Seq<u64>;

/// The sample grid (as IEEE 754 bit patterns, row-major) of fractal
/// Brownian motion over Perlin noise keyed by `seed`, sampled on a
/// `side * side` grid over the square domain from `-num/den` to `num/den`
/// on both axes.
///
/// The noise functions are pure: the same seed, grid size and bounds give
/// the same samples in every run, so this is a function of its arguments.
pub uninterp spec fn fbm_bits(seed: u32, side: nat, num: int, den: int) -> Seq<u64>;

/// The highest seed the noise source accepts: it derives one seed per
/// octave by adding the octave index to the given seed (six octaves), so
/// the five values above this cap would overflow that addition.
pub open spec fn spec_max_noise_seed() -> u32 {
    0xFFFF_FFFAu32
}

/// The seed actually handed to the noise source: capped at
/// `spec_max_noise_seed`, so the octave-seed derivation cannot overflow.
/// Generation stays total over every 32-bit seed; the five seeds above the
/// cap share the capped seed's height field.
pub open spec fn spec_noise_seed(seed: u32) -> u32 {
    if seed > spec_max_noise_seed() {
        spec_max_noise_seed()
    } else {
        seed
    }
}

/// Relies on `noise::Fbm::<Perlin>::new` and
/// `noise::utils::PlaneMapBuilder`: `build` fills a `side * side` map by
/// sampling the noise function over the requested bounds, here the square
/// from `-num/den` to `num/den` (the quotient taken to nearest-representable
/// precision). `set_size` refuses sides of 32767 and above, and `Fbm::new`
/// adds the octave index (up to five) to the seed, which the seed bound
/// keeps in range.
#[verifier::external_body]
fn build_plane(seed: u32, side: usize, num: i32, den: u32) -> (r: noise::utils::NoiseMap)
    requires
        seed <= spec_max_noise_seed(),
        0 < side < 32767,
        den != 0,
    ensures
        plane_side(r) == side,
        plane_bits(r) == fbm_bits(seed, side as nat, num as int, den as int),
        plane_bits(r).len() == side * side,
{
    let fbm = noise::Fbm::<noise::Perlin>::new(seed);
    let upper = num_traits::ToPrimitive::to_f64(&num).unwrap() / num_traits::ToPrimitive::to_f64(
        &den,
    ).unwrap();
    let lower = -upper;
    noise::utils::NoiseMapBuilder::build(
        &noise::utils::NoiseMapBuilder::set_size(
            noise::utils::PlaneMapBuilder::<_, 2>::new(&fbm),
            side,
            side,
        ).set_x_bounds(lower, upper).set_y_bounds(lower, upper),
    )
}

/// Relies on `noise::utils::NoiseMap::get_value`: within bounds it returns
/// the stored sample at `(x, y)`, row-major. The sample leaves as its IEEE
/// 754 bit pattern.
#[verifier::external_body]
fn plane_value_bits(m: &noise::utils::NoiseMap, x: usize, y: usize) -> (r: u64)
    requires
        x < plane_side(*m),
        y < plane_side(*m),
        plane_bits(*m).len() == plane_side(*m) * plane_side(*m),
    ensures
        r == plane_bits(*m)[y * plane_side(*m) + x],
{
    m.get_value(x, y).to_bits()
}

/// The sign bit of a 64-bit IEEE 754 pattern.
pub open spec fn spec_sign_mask() -> u64 {
    0x8000_0000_0000_0000u64
}

/// The order key of an IEEE 754 bit pattern: the magnitude bits, negated
/// when the sign bit is set. For the finite values the sampler produces,
/// keys order exactly as the encoded values do (both zero patterns share
/// the key 0).
pub open spec fn spec_order_key(bits: u64) -> int {
    if bits < spec_sign_mask() {
        bits as int
    } else {
        spec_sign_mask() - bits
    }
}

/// Computes the order key of a sample's bit pattern.
pub fn order_key(bits: u64) -> (k: i64)
    ensures
        k == spec_order_key(bits),
{
    if bits < 0x8000_0000_0000_0000u64 {
        bits as i64
    } else {
        -((bits - 0x8000_0000_0000_0000u64) as i64)
    }
}

/// Band thresholds, as order keys of height-sample values. Each constant is
/// the lowest sample value (inclusive) of its band; the bands are read from
/// the highest down, and anything below the lowest bound is deep water.
/// Each threshold is a height divided by the height-scale factor of
/// nineteen tenths, so samples need no scaling before comparison.
///
/// Snow: scaled height of at least nineteen tenths — the key of sample 1.
pub const SNOW_KEY: i64 = 0x3FF0_0000_0000_0000;

/// Dark stone: scaled height of at least fifteen tenths.
pub const DARK_STONE_KEY: i64 = 0x3FE9_435E_50D7_9436;

/// Stone: scaled height of at least twelve tenths.
pub const STONE_KEY: i64 = 0x3FE4_35E5_0D79_435E;

/// Grass: scaled height of at least sixty-nine hundredths.
pub const GRASS_KEY: i64 = 0x3FD7_3DFA_9C4B_73DF;

/// Sand: scaled height of at least four tenths.
pub const SAND_KEY: i64 = 0x3FCA_F286_BCA1_AF29;

/// Shallow water: scaled height of at least minus one tenth.
pub const SHALLOW_WATER_KEY: i64 = -0x3FAA_F286_BCA1_AF29;

/// Water: scaled height of at least minus one and fifteen hundredths.
pub const WATER_KEY: i64 = -0x3FE3_5E50_D794_35E5;

/// The height band of an order key: an ordered range scan from the highest
/// band down. Samples above the highest threshold clamp to `Snow`; samples
/// below the lowest band are `DeepWater`. Total: every key gets one of the
/// eight tile kinds.
pub open spec fn spec_classify_key(k: int) -> Tile {
    if k >= SNOW_KEY {
        Tile::Snow
    } else if k >= DARK_STONE_KEY {
        Tile::DarkStone
    } else if k >= STONE_KEY {
        Tile::Stone
    } else if k >= GRASS_KEY {
        Tile::Grass
    } else if k >= SAND_KEY {
        Tile::Sand
    } else if k >= SHALLOW_WATER_KEY {
        Tile::ShallowWater
    } else if k >= WATER_KEY {
        Tile::Water
    } else {
        Tile::DeepWater
    }
}

/// The tile kind of a raw height sample, given as its IEEE 754 bit pattern.
pub open spec fn spec_classify_bits(bits: u64) -> Tile {
    spec_classify_key(spec_order_key(bits))
}

/// Classifies one height sample into its band.
pub fn classify_bits(bits: u64) -> (t: Tile)
    ensures
        t == spec_classify_bits(bits),
{
    let k = order_key(bits);
    if k >= SNOW_KEY {
        Tile::Snow
    } else if k >= DARK_STONE_KEY {
        Tile::DarkStone
    } else if k >= STONE_KEY {
        Tile::Stone
    } else if k >= GRASS_KEY {
        Tile::Grass
    } else if k >= SAND_KEY {
        Tile::Sand
    } else if k >= SHALLOW_WATER_KEY {
        Tile::ShallowWater
    } else if k >= WATER_KEY {
        Tile::Water
    } else {
        Tile::DeepWater
    }
}

/// A sample strictly above the highest threshold still classifies, to the
/// highest band: clamped, never missing.
pub proof fn lemma_classify_clamps_high(bits: u64)
    requires
        spec_order_key(bits) > SNOW_KEY,
    ensures
        spec_classify_bits(bits) == Tile::Snow,
{
}

/// The plane for a world of `n` chunks per axis: `16 * n` samples per
/// axis, with the seed capped for the noise source.
pub(crate) fn plane_for_world(seed: u32, n: i32, island_size: u32) -> (r: noise::utils::NoiseMap)
    requires
        1 <= n <= 20,
        island_size > 0,
    ensures
        plane_side(r) == 16 * n,
        plane_bits(r) == fbm_bits(spec_noise_seed(seed), (16 * n) as nat, n as int,
        island_size as int),
        plane_bits(r).len() == plane_side(r) * plane_side(r),
{
    let capped = if seed > 0xFFFF_FFFAu32 {
        0xFFFF_FFFAu32
    } else {
        seed
    };
    build_plane(capped, (n as usize) * 16, n, island_size)
}

/// Reads the sample for global tile `(gx, gy)` from a built plane and
/// classifies it.
pub(crate) fn tile_at_sample(plane: &noise::utils::NoiseMap, gx: usize, gy: usize) -> (t: Tile)
    requires
        gx < plane_side(*plane),
        gy < plane_side(*plane),
        plane_bits(*plane).len() == plane_side(*plane) * plane_side(*plane),
    ensures
        t == spec_classify_bits(plane_bits(*plane)[gy * plane_side(*plane) + gx]),
{
    classify_bits(plane_value_bits(plane, gx, gy))
}

} // verus!
