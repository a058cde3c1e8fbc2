//! Verified core of a multi-backend document viewer.
//!
//! The library presents one contract over three structurally different
//! document backends: raster images (decoded pixel buffers mutated in
//! place), vector graphics (re-rasterized from a retained scene on every
//! scale or transform change) and paginated portable documents (rendered
//! one page at a time, with a resumable thumbnail pipeline).  A closed
//! tagged union, [`content::DocumentContent`], dispatches the shared
//! operations to the live backend and reconciles fine-grained rotation
//! down to quarter turns before any backend that only supports them.

pub mod content;
pub mod crop;
pub mod error;
pub mod kind;
pub mod meta;
pub mod ops;
pub mod pixel;
pub mod portable;
pub mod raster;
pub mod transform;
pub mod vector;
