//! The coordinate system: conversion between global tile coordinates and
//! (chunk coordinate, local-in-chunk coordinate) pairs, and its inverse.
//!
//! Chunks are 16 x 16, so on each axis the chunk coordinate is the floor of
//! `g / 16` and the local coordinate is `g` minus sixteen times that floor,
//! always in `[0, 16)`. Floor division — not truncating division — is what
//! makes negative global coordinates resolve correctly: global `-1` lies in
//! chunk `-1` at local `15`.

use vstd::prelude::*;

verus! {

use vstd::arithmetic::div_mod::lemma_fundamental_div_mod;
use vstd::arithmetic::div_mod::lemma_fundamental_div_mod_converse;

/// An unbounded integer coordinate in world tile-space.
#[derive(Clone, Copy, Debug, PartialEq, Eq, Structural)]
pub struct GlobalTilePos(pub i32, pub i32);

/// The integer pair identifying a chunk in chunk-space.
#[derive(Clone, Copy, Debug, PartialEq, Eq, Hash, Structural)]
pub struct ChunkPos {
    pub x: i32,
    pub y: i32,
}

/// The chunk coordinate of a global coordinate on one axis: the floor of
/// `g / 16` (`/` on `int` is Euclidean division, which floors for a positive
/// divisor).
pub open spec fn spec_chunk_coord(g: int) -> int {
    g / 16
}

/// The local coordinate of a global coordinate on one axis, always in
/// `[0, 16)`.
pub open spec fn spec_local_coord(g: int) -> int {
    g % 16
}

/// The global coordinate of chunk coordinate `c` and local coordinate `l` on
/// one axis.
pub open spec fn spec_to_global(c: int, l: int) -> int {
    16 * c + l
}

/// One axis of `to_chunk_and_local`: the chunk coordinate and the local
/// coordinate of `g`.
fn split_axis(g: i32) -> (r: (i32, u8))
    ensures
        r.0 == spec_chunk_coord(g as int),
        r.1 == spec_local_coord(g as int),
{
    proof {
        assert(16 * (g >> 4) + (g & 15) == g && 0 <= (g & 15) < 16 && -0x8000000 <= (g >> 4)
            < 0x8000000) by (bit_vector);
        lemma_fundamental_div_mod_converse(g as int, 16, (g >> 4) as int, (g & 15) as int);
    }
    (g >> 4, (g & 15) as u8)
}

/// Resolves a global tile position to its chunk position and its local
/// coordinates within that chunk. Each axis is independent: the chunk
/// coordinate is the floor of `g / 16`, and the local coordinate is the
/// remainder, normalized to `[0, 16)` also for negative `g`.
pub fn to_chunk_and_local(global: GlobalTilePos) -> (r: (ChunkPos, (u8, u8)))
    ensures
        r.0.x == spec_chunk_coord(global.0 as int),
        r.0.y == spec_chunk_coord(global.1 as int),
        r.1.0 == spec_local_coord(global.0 as int),
        r.1.1 == spec_local_coord(global.1 as int),
        r.1.0 < 16 && r.1.1 < 16,
{
    let (cx, lx) = split_axis(global.0);
    let (cy, ly) = split_axis(global.1);
    proof {
        vstd::arithmetic::div_mod::lemma_mod_bound(global.0 as int, 16);
        vstd::arithmetic::div_mod::lemma_mod_bound(global.1 as int, 16);
    }
    (ChunkPos { x: cx, y: cy }, (lx, ly))
}

/// The inverse of `to_chunk_and_local`: the global tile position of a local
/// coordinate within a chunk. The result must fit the 32-bit coordinate
/// range.
pub fn to_global(chunk: ChunkPos, local: (u8, u8)) -> (r: GlobalTilePos)
    requires
        local.0 < 16,
        local.1 < 16,
        i32::MIN <= spec_to_global(chunk.x as int, local.0 as int) <= i32::MAX,
        i32::MIN <= spec_to_global(chunk.y as int, local.1 as int) <= i32::MAX,
    ensures
        r.0 == spec_to_global(chunk.x as int, local.0 as int),
        r.1 == spec_to_global(chunk.y as int, local.1 as int),
{
    let gx = chunk.x as i64 * 16 + local.0 as i64;
    let gy = chunk.y as i64 * 16 + local.1 as i64;
    GlobalTilePos(gx as i32, gy as i32)
}

/// Splitting a global coordinate and recombining it round-trips: on each
/// axis, `to_global` applied to the chunk and local coordinates of `g` gives
/// back `g`.
pub proof fn lemma_coord_roundtrip(g: int)
    ensures
        spec_to_global(spec_chunk_coord(g), spec_local_coord(g)) == g,
{
    lemma_fundamental_div_mod(g, 16);
}

/// The local coordinate is in `[0, 16)` on every input, negative global
/// coordinates included.
pub proof fn lemma_local_coord_in_range(g: int)
    ensures
        0 <= spec_local_coord(g) < 16,
{
    vstd::arithmetic::div_mod::lemma_mod_bound(g, 16);
}

} // verus!
