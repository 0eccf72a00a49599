//! A safety layer over a reference-counted native 2D rendering engine: the
//! decisions that keep foreign surfaces, patterns, paths and output streams
//! memory-safe, stated over plain values and proved.

pub mod enums;
pub mod error;
pub mod surface;
pub mod image_surface;
pub mod paths;
pub mod patterns;
pub mod pdf_surface;
pub mod support;
