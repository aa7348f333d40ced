//! Compiles parsed Tiled tile-map documents into chunked triangle meshes and
//! resolved object placements.
//!
//! The input is a [`document::MapDocument`]: the parsed map reduced to plain
//! integers.  The [`compiler`] validates it (orientation, tileset images,
//! gid ranges, layer representation), partitions every visible layer crossed
//! with every tileset into fixed-size [`chunk`]s, resolves each owned cell
//! through the [`tileset`] resolver and the [`uv_flip`] corner reordering,
//! and emits one tagged [`mesh`] per non-empty chunk, together with resolved
//! [`objects`] placements.  All geometry is exact: world positions are kept
//! in quarter-pixel steps (see [`geometry::SUBPIXELS`]) and texture
//! coordinates as pixel numerators over the sprite-sheet dimensions, so the
//! compiler is deterministic and its output can be checked bit for bit.
//! [`animation`] advances per-tile frame clocks, and [`reload`] keeps the
//! stable keys a host needs to despawn stale geometry on a recompile.

pub mod animation;
pub mod chunk;
pub mod compiler;
pub mod document;
pub mod geometry;
pub mod gid;
pub mod loader;
pub mod mesh;
pub mod objects;
pub mod reload;
pub mod tileset;
pub mod uv_flip;
