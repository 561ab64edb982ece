//! A small real-time-strategy-style unit-selection library.
//!
//! A click-drag draws a screen-space selection rectangle; units whose
//! position falls inside it gain selection and highlight tags; a
//! right-click clears them. This crate holds the selection logic —
//! coordinate conversion, the rectangle containment test, the
//! per-frame input transitions, and the tagging rules — on plain
//! integer world coordinates, with contracts proved by Verus. The
//! windowing, rendering and entity storage that feed it live outside.

pub mod geometry;
pub mod input;
pub mod selection;
pub mod world;
