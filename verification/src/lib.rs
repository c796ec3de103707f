//! Coordinate mathematics for hexagonal grids: an integer axial coordinate
//! type with exact arithmetic, ring enumeration around a hex, conversion
//! between axial coordinates and continuous pixel space for the two hexagon
//! orientations, and a boundary-corrected lookup for irregular pixel tiles.
//!
//! Continuous pixel coordinates are carried by [`fixed::Fixed`], a binary
//! fixed-point number, so that every transform is an exact integer
//! computation with a full specification.

use vstd::prelude::*;

pub mod axial;
pub mod circle;
pub mod fixed;
pub mod hex;
pub mod pixelhex;

verus! {

/// Defines how a hexagon is orientated relative to the pixel axes.
#[derive(Copy, Clone, Debug, PartialEq, Eq, Structural)]
pub enum HexTop {
    FLAT,
    POINTY,
}

} // verus!
