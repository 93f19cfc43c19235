//! A vector-scene document model: a tree of layers (folders and geometric
//! primitives) with transform composition, blend/opacity compositing, cached
//! rendering to SVG markup, bounding boxes and quadrilateral hit-testing.
use vstd::prelude::*;

pub mod blend;
pub mod markup;
pub mod geometry;
pub mod style;
pub mod layers;
pub mod document;
pub mod panel;
pub mod laws;


verus! {

/// Identifier of a layer, unique among the children of its folder.
pub type LayerId = u64;

/// Failures of path resolution and of folder-only operations.
#[derive(Debug, Clone, Copy, PartialEq, Eq, Structural)]
pub enum DocumentError {
    /// A folder operation was asked of a layer that is not a folder.
    NotAFolder,
    /// A path names an identifier that the folder does not hold.
    LayerNotFound,
}

} // verus!
