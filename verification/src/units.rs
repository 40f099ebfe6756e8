//! Device-space geometry shared with the rest of the renderer, and the fixed
//! quantities of the vertex stage.
//!
//! Rectangles handed to the texture uploader are `webrender_api` device
//! rectangles. The verifier does not look inside them: it knows a rectangle
//! only as the value that the constructor returns for a given width and height.

use vstd::prelude::*;
use webrender_api::units::{
    DeviceIntPoint, DeviceIntRect, DeviceIntSize, DevicePixel, LayoutPixel,
};

verus! {

/// Number of vertices that make up the quad drawn for one instance.
pub const VERTICES_PER_INSTANCE: usize = 4;

/// Rows that a vertex data texture may hold beyond the rows in use before it
/// is replaced by a smaller one.
pub const VERTEX_TEXTURE_EXTRA_ROWS: i32 = 10;

/// Number of bytes in one texel of a vertex data texture.
pub const TEXEL_SIZE: usize = 16;

/// `euclid::Box2D`, the axis-aligned rectangle type behind `DeviceIntRect`,
/// declared so that values of it can be carried through verified code.
#[verifier::external_type_specification]
#[verifier::external_body]
#[verifier::reject_recursive_types(T)]
#[verifier::reject_recursive_types(U)]
pub struct ExBox2D<T, U>(euclid::Box2D<T, U>);

/// `euclid::Point2D`, the point type behind `LayoutPoint`, declared so that
/// values of it can be carried through verified code.
#[verifier::external_type_specification]
#[verifier::external_body]
#[verifier::reject_recursive_types(T)]
#[verifier::reject_recursive_types(U)]
pub struct ExPoint2D<T, U>(euclid::Point2D<T, U>);

/// `euclid::Size2D`, the size type behind `LayoutSize`, declared so that
/// values of it can be carried through verified code.
#[verifier::external_type_specification]
#[verifier::external_body]
#[verifier::reject_recursive_types(T)]
#[verifier::reject_recursive_types(U)]
pub struct ExSize2D<T, U>(euclid::Size2D<T, U>);

/// `webrender_api::units::DevicePixel`, the unit tag of device-space geometry.
#[verifier::external_type_specification]
#[verifier::external_body]
pub struct ExDevicePixel(DevicePixel);

/// `webrender_api::units::LayoutPixel`, the unit tag of layout-space geometry.
#[verifier::external_type_specification]
#[verifier::external_body]
pub struct ExLayoutPixel(LayoutPixel);

/// The device rectangle with its origin at (0, 0) and the given size, as
/// `euclid::Box2D::from_origin_and_size` builds it.
pub uninterp spec fn device_rect_at_origin(width: int, height: int) -> DeviceIntRect;

/// Calls `DeviceIntRect::from_origin_and_size` (that is,
/// `euclid::Box2D::from_origin_and_size`) with `DeviceIntPoint::zero()` and
/// `DeviceIntSize::new(width, height)`.
///
/// Unverified: the contract only gives the returned rectangle its name,
/// `device_rect_at_origin(width, height)`. The constructor stores the origin
/// as the minimum corner and origin plus size as the maximum corner; with a
/// zero origin that sum cannot overflow.
#[verifier::external_body]
pub(crate) fn device_int_rect(width: i32, height: i32) -> (rect: DeviceIntRect)
    ensures
        rect == device_rect_at_origin(width as int, height as int),
{
    DeviceIntRect::from_origin_and_size(DeviceIntPoint::zero(), DeviceIntSize::new(width, height))
}

/// The width in texels of every vertex data texture.
pub open spec fn spec_max_vertex_texture_width() -> usize {
    1024
}

/// Reads `webrender_build::MAX_VERTEX_TEXTURE_WIDTH`, the texture width that
/// the shaders are compiled against.
///
/// Unverified: the contract claims the value that the constant is declared
/// with, 1024.
#[verifier::external_body]
#[verifier::when_used_as_spec(spec_max_vertex_texture_width)]
pub(crate) fn max_vertex_texture_width() -> (width: usize)
    ensures
        width == spec_max_vertex_texture_width(),
{
    webrender_build::MAX_VERTEX_TEXTURE_WIDTH
}

} // verus!
