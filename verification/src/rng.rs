//! The deterministic random-draw source used by the `ChunkMess` and
//! `TileMess` strategies.
//!
//! The 32-bit seed is expanded into the generator's 32-byte seed state by
//! writing the seed's big-endian bytes into the low-order bytes of a
//! zero-filled buffer. The generator itself is `rand`'s `StdRng` (ChaCha
//! with 12 rounds): a pure function of its seed, so the whole draw sequence
//! is determined by the seed alone, and is consumed in a single fixed order
//! by the generation strategies. `TileRng` threads that generator as an
//! explicit value, with no hidden shared state.

use vstd::prelude::*;

verus! {

use crate::tiles::Tile;

#[verifier::external_type_specification]
#[verifier::external_body]
pub struct ExStdRng(rand::rngs::StdRng);

/// The value of draw number `index` (counting from zero) of the sequence
/// `gen_range(1..5)` draws from a `StdRng` seeded with `seed_bytes`.
///
/// `StdRng` (ChaCha 12) is deterministic: the same seed gives the same draw
/// sequence in every run, so this is a function of its arguments.
pub uninterp spec fn rng_draw(seed_bytes: Seq<u8>, index: nat) -> u8;

/// Holds when `rng` is in the state that a `StdRng` seeded with `seed_bytes`
/// reaches after `drawn` draws of `gen_range(1..5)`.
pub uninterp spec fn rng_matches(rng: rand::rngs::StdRng, seed_bytes: Seq<u8>, drawn: nat) -> bool;

/// Relies on `rand::SeedableRng::from_seed` for `StdRng`: it builds the
/// generator state from the 32 seed bytes alone, so the fresh generator is
/// the zero-draw state for those bytes.
#[verifier::external_body]
fn stdrng_from_seed(seed: [u8; 32]) -> (rng: rand::rngs::StdRng)
    ensures
        rng_matches(rng, seed@, 0),
{
    <rand::rngs::StdRng as rand::SeedableRng>::from_seed(seed)
}

/// Relies on `rand::Rng::gen_range` over `StdRng` (ChaCha 12): on the range
/// `1..5` it returns a value in `[1, 5)` that, like the successor state, is
/// a pure function of the generator state — here the state after `drawn`
/// draws from seed `seed`.
#[verifier::external_body]
fn stdrng_next_draw(rng: &mut rand::rngs::StdRng, seed: &[u8; 32], drawn: u64) -> (d: u8)
    requires
        rng_matches(*old(rng), seed@, drawn as nat),
    ensures
        d == rng_draw(seed@, drawn as nat),
        1 <= d < 5,
        rng_matches(*final(rng), seed@, drawn as nat + 1),
    no_unwind
{
    rand::Rng::gen_range(rng, 1..5) as u8
}

/// Relies on `rand::Rng::gen_range` over `StdRng`: on the range `1..=2` it
/// returns 1 or 2. This draw consumes generator state outside the
/// `gen_range(1..5)` sequence that `rng_draw` and `rng_matches` model, so
/// no claim ties the result or the successor state to a draw count.
#[verifier::external_body]
fn stdrng_next_pair_draw(rng: &mut rand::rngs::StdRng) -> (d: u8)
    ensures
        1 <= d <= 2,
    no_unwind
{
    rand::Rng::gen_range(rng, 1..=2) as u8
}

/// The seed expansion rule: the seed's big-endian bytes stand in the four
/// low-order bytes of a zero-filled 32-byte buffer.
pub open spec fn spec_seed_bytes(seed: u32) -> Seq<u8> {
    Seq::new(
        32,
        |i: int|
            if i == 0 {
                (seed >> 24) as u8
            } else if i == 1 {
                (seed >> 16) as u8
            } else if i == 2 {
                (seed >> 8) as u8
            } else if i == 3 {
                seed as u8
            } else {
                0u8
            },
    )
}

/// Expands a 32-bit seed into the generator's 32-byte seed state: the seed's
/// big-endian bytes, then zeroes.
pub fn seed_to_byte_array(seed: u32) -> (bytes: [u8; 32])
    ensures
        bytes@ == spec_seed_bytes(seed),
{
    let mut bytes: [u8; 32] = [0u8; 32];
    bytes[0] = (seed >> 24) as u8;
    bytes[1] = (seed >> 16) as u8;
    bytes[2] = (seed >> 8) as u8;
    bytes[3] = seed as u8;
    proof {
        assert(bytes@ =~= spec_seed_bytes(seed));
    }
    bytes
}

/// An explicit, deterministic draw source: a seeded `StdRng` together with
/// its seed bytes and the count of draws already made.
pub struct TileRng {
    inner: rand::rngs::StdRng,
    seed: [u8; 32],
    drawn: u64,
}

impl TileRng {
    /// A well-formed draw source: the generator state corresponds to the
    /// recorded seed and draw count. Established by `from_seed` and
    /// preserved by every draw.
    pub closed spec fn wf(self) -> bool {
        rng_matches(self.inner, self.seed@, self.drawn as nat)
    }

    /// The 32-byte seed this draw source was built from.
    pub closed spec fn seed_bytes(self) -> Seq<u8> {
        self.seed@
    }

    /// How many draws have been made so far.
    pub closed spec fn drawn(self) -> nat {
        self.drawn as nat
    }

    /// A fresh draw source seeded with `seed`, with no draws made yet.
    pub fn from_seed(seed: [u8; 32]) -> (rng: TileRng)
        ensures
            rng.wf(),
            rng.seed_bytes() == seed@,
            rng.drawn() == 0,
    {
        TileRng { inner: stdrng_from_seed(seed), seed, drawn: 0 }
    }

    /// The next draw: the value in `[1, 5)` that the seed and the current
    /// draw count determine.
    pub fn next_draw(&mut self) -> (d: u8)
        requires
            old(self).wf(),
            old(self).drawn() < u64::MAX,
        ensures
            d == rng_draw(old(self).seed_bytes(), old(self).drawn()),
            1 <= d < 5,
            final(self).wf(),
            final(self).seed_bytes() == old(self).seed_bytes(),
            final(self).drawn() == old(self).drawn() + 1,
    {
        let d = stdrng_next_draw(&mut self.inner, &self.seed, self.drawn);
        self.drawn = self.drawn + 1;
        d
    }
}

/// The tile kind that a raw draw selects: the four-way split used by the
/// random strategies. Draws are always in `[1, 5)`.
pub open spec fn tile_from_draw(d: u8) -> Tile {
    if d == 1 {
        Tile::Water
    } else if d == 2 {
        Tile::Grass
    } else if d == 3 {
        Tile::Stone
    } else {
        Tile::Sand
    }
}

/// Draws either a `Water` or a `Grass` tile, with equal probability.
///
/// This draw is taken from a range that the draw source's modelled
/// sequence does not cover, so it leaves the source outside its
/// well-formed state: afterwards no further modelled draw can be taken
/// from it. Its one intended use is seeding a grass-and-water field to be
/// smoothed as a whole.
pub fn random_tile_water_grass(rng: &mut TileRng) -> (t: Tile)
    ensures
        t == Tile::Water || t == Tile::Grass,
        final(rng).seed_bytes() == old(rng).seed_bytes(),
{
    let d = stdrng_next_pair_draw(&mut rng.inner);
    if d == 1 {
        Tile::Water
    } else {
        Tile::Grass
    }
}

/// Draws one uniformly random tile kind out of `Water`, `Grass`, `Stone`
/// and `Sand`, advancing the draw source by one.
pub fn random_tile(rng: &mut TileRng) -> (t: Tile)
    requires
        old(rng).wf(),
        old(rng).drawn() < u64::MAX,
    ensures
        t == tile_from_draw(rng_draw(old(rng).seed_bytes(), old(rng).drawn())),
        final(rng).wf(),
        final(rng).seed_bytes() == old(rng).seed_bytes(),
        final(rng).drawn() == old(rng).drawn() + 1,
{
    let d = rng.next_draw();
    if d == 1 {
        Tile::Water
    } else if d == 2 {
        Tile::Grass
    } else if d == 3 {
        Tile::Stone
    } else {
        Tile::Sand
    }
}

} // verus!
