//! Core engine of a tile-laying board game.
//!
//! Players draw cards, each offering one or more shaped pieces; a piece is a
//! set of tile offsets that can be rotated in quarter turns and stamped onto a
//! personal grid with a terrain kind.  This crate holds the verified parts of
//! that game: the terrain and shape catalogs, the composite-texture generator
//! that assembles a multi-tile picture from a single base tile, the placement
//! engine (rotation, projection onto the grid, validity, commit), the grid
//! itself, and the startup dependency pipeline that defers derived-asset
//! generation until base images have loaded.  Rendering, input polling and
//! asset loading live outside, and talk to this crate in plain values.

pub mod assets;
pub mod cards;
pub mod grid;
pub mod image;
pub mod pipeline;
pub mod placement;
pub mod rotation;
pub mod shape;
pub mod terrain;
