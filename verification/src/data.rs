//! The parts of a scene description that the staging code shares with the
//! tools that read scenes: identifiers, gradient and image geometry, and the
//! values that a description falls back to where it leaves a field out.

use core::ops::Range;
use vstd::prelude::*;
use webrender_api::units::{LayoutPoint, LayoutRect, LayoutSize};
use webrender_api::PipelineSourceId;

verus! {

/// The value of a switch that is on unless a scene turns it off.
pub fn bool_true() -> (value: bool)
    ensures
        value,
{
    true
}

/// The value of a switch that is off unless a scene turns it on.
pub fn bool_false() -> (value: bool)
    ensures
        !value,
{
    false
}

/// The size of text for which a scene names none.
pub fn usize_16() -> (size: usize)
    ensures
        size == 16,
{
    16
}

/// The color space of a YUV image for which a scene names none.
pub fn yuv_color_space_709() -> (color_space: YuvColorSpace)
    ensures
        color_space == YuvColorSpace::Rec709,
{
    YuvColorSpace::Rec709
}

/// The color space that the planes of a YUV image are in.
#[derive(Clone, Copy, Debug, PartialEq, Eq, Structural)]
pub enum YuvColorSpace {
    Rec601,
    Rec709,
    Rec2020,
    Identity,
}

/// The pipeline that a stacking context belongs to.
#[derive(Clone, Copy, Debug, PartialEq, Eq, Hash, Structural)]
pub enum PipelineId {
    Root,
    Other(PipelineSourceId, u32),
}

/// An axis of space.
#[derive(Clone, Copy, Debug, PartialEq, Eq, Structural)]
pub enum Axis {
    X,
    Y,
    Z,
}

/// A node of the clip and scroll tree.
#[derive(Clone, Copy, Debug, PartialEq, Eq, Structural)]
pub enum ClipId {
    Specific(u64),
    RootReferenceFrame,
    RootScrollNode,
}

/// The nodes that clip and scroll an item: one node for both, or one for
/// each.
#[derive(Clone, Copy, Debug, PartialEq, Eq, Structural)]
pub enum ClipAndScroll {
    Single(ClipId),
    Custom { clip: ClipId, scroll: ClipId },
}

/// How a gradient is tiled: the size of a tile and the space between tiles.
pub struct GradientTile {
    pub size: LayoutSize,
    pub spacing: LayoutSize,
}

/// The geometry of a gradient.
pub enum GradientKind {
    Linear { bounds: LayoutRect, range: Range<LayoutPoint> },
    Radial { center: LayoutPoint, radius: LayoutSize },
}

/// Where an image is drawn: at `origin`, with its own size unless another is
/// given.
pub struct ImageRect {
    pub origin: LayoutPoint,
    pub size: Option<LayoutSize>,
}

/// The files that hold the planes of a YUV image.
#[derive(Debug, PartialEq, Eq)]
pub enum YuvKind {
    Planar { src_y: String, src_u: String, src_v: String },
    Nv12 { src_y: String, src_uv: String },
    Interleaved { src: String },
}

} // verus!
