//! Cut geometry for a flat-sheet, finger-jointed rack that holds a grid of
//! identical storage containers.
//!
//! The layout arithmetic, the three panel generators and the document
//! assembler are verified: each emitted path is pinned, coordinate by
//! coordinate, to a closed-form description, and the joint-alignment,
//! bounding and counting laws are proved over those descriptions.  The
//! final step, turning the assembled document into an SVG element tree,
//! goes through a thin trusted layer over the `svg` crate.

pub mod covers;
pub mod drawing;
pub mod laws;
pub mod layout;
pub mod panels;
pub mod rack;
pub mod render;
pub mod wings;

pub use crate::rack::generate_svg;
