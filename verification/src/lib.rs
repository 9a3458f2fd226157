//! Geometry and composition engine for an interactive radial skill-tree
//! canvas: orbit-based node placement around group anchors, a pan/zoom
//! camera with a fixed zoom anchor, sprite-atlas lookup with half-image
//! mirroring, and per-frame scene composition into plain draw commands.
//!
//! All geometry is carried in fixed-point integers: world and screen
//! coordinates in micro-pixels, zoom factors in thousandths, angles in
//! units of 2.5 degrees. This keeps every computation exact or within a
//! proven truncation bound far inside a thousandth of a pixel.

pub mod atlas;
pub mod camera;
pub mod geom;
pub mod lines;
pub mod model;
pub mod num;
pub mod orbit;
pub mod scene;
pub mod text;
pub mod tree;
pub mod trig;
