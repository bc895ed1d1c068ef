//! Core model of a textmode pixel-art editor: a flat two-dimensional grid of
//! character cells, charset-decoupled canvases with cursors, a fluent canvas
//! builder, and a registry that composes several canvases into one scene.

pub mod actions;
pub mod array2d;
pub mod canvas;
pub mod charset;
pub mod gallery;
pub mod geometry;
pub mod palette;
