//! The vertex layouts that the renderer draws with, attribute by attribute.
//! The names are the names of the shader inputs.

use vstd::prelude::*;
use crate::desc::{
    attributes_size, attributes_size_up_to, NamedDescriptor, VertexAttribute, VertexAttributeKind,
    VertexDescriptor,
};

verus! {

/// The vertex attributes of every layout that draws quads: the position of
/// the corner, as two normalized bytes.
pub open spec fn position_attributes() -> Seq<VertexAttribute> {
    seq![VertexAttribute { name: "aPosition", count: 2, kind: VertexAttributeKind::U8Norm }]
}

/// The vertex attributes of GPU cache updates: where a block goes and what it
/// holds.
pub open spec fn gpu_cache_update_vertex_attributes() -> Seq<VertexAttribute> {
    seq![
        VertexAttribute { name: "aPosition", count: 2, kind: VertexAttributeKind::U16Norm },
        VertexAttribute { name: "aValue", count: 4, kind: VertexAttributeKind::F32 },
    ]
}

/// The instance attributes that the three layouts of clip masks begin with.
pub open spec fn common_clip_attributes() -> Seq<VertexAttribute> {
    seq![
        VertexAttribute { name: "aClipDeviceArea", count: 4, kind: VertexAttributeKind::F32 },
        VertexAttribute { name: "aClipOrigins", count: 4, kind: VertexAttributeKind::F32 },
        VertexAttribute { name: "aDevicePixelScale", count: 1, kind: VertexAttributeKind::F32 },
        VertexAttribute { name: "aTransformIds", count: 2, kind: VertexAttributeKind::I32 },
    ]
}

/// The instance attributes of primitive instances.
pub open spec fn prim_instances_instance_attributes() -> Seq<VertexAttribute> {
    seq![
        VertexAttribute { name: "aData", count: 4, kind: VertexAttributeKind::I32 },
    ]
}

/// The layout of primitive instances.
pub fn prim_instances() -> (descriptor: VertexDescriptor)
    ensures
        descriptor.vertex_attributes@ == position_attributes(),
        descriptor.instance_attributes@ == prim_instances_instance_attributes(),
{
    let mut vertex_attributes: Vec<VertexAttribute> = Vec::new();
    vertex_attributes.push(
        VertexAttribute { name: "aPosition", count: 2, kind: VertexAttributeKind::U8Norm },
    );
    let mut instance_attributes: Vec<VertexAttribute> = Vec::new();
    instance_attributes.push(
        VertexAttribute { name: "aData", count: 4, kind: VertexAttributeKind::I32 },
    );
    proof {
        assert(vertex_attributes@ =~= position_attributes());
        assert(instance_attributes@ =~= prim_instances_instance_attributes());
    }
    VertexDescriptor { vertex_attributes, instance_attributes }
}

/// The instance attributes of blur instances.
pub open spec fn blur_instance_attributes() -> Seq<VertexAttribute> {
    seq![
        VertexAttribute { name: "aBlurRenderTaskAddress", count: 1, kind: VertexAttributeKind::U16 },
        VertexAttribute { name: "aBlurSourceTaskAddress", count: 1, kind: VertexAttributeKind::U16 },
        VertexAttribute { name: "aBlurDirection", count: 1, kind: VertexAttributeKind::I32 },
    ]
}

/// The layout of blur instances.
pub fn blur() -> (descriptor: VertexDescriptor)
    ensures
        descriptor.vertex_attributes@ == position_attributes(),
        descriptor.instance_attributes@ == blur_instance_attributes(),
{
    let mut vertex_attributes: Vec<VertexAttribute> = Vec::new();
    vertex_attributes.push(
        VertexAttribute { name: "aPosition", count: 2, kind: VertexAttributeKind::U8Norm },
    );
    let mut instance_attributes: Vec<VertexAttribute> = Vec::new();
    instance_attributes.push(
        VertexAttribute { name: "aBlurRenderTaskAddress", count: 1, kind: VertexAttributeKind::U16 },
    );
    instance_attributes.push(
        VertexAttribute { name: "aBlurSourceTaskAddress", count: 1, kind: VertexAttributeKind::U16 },
    );
    instance_attributes.push(
        VertexAttribute { name: "aBlurDirection", count: 1, kind: VertexAttributeKind::I32 },
    );
    proof {
        assert(vertex_attributes@ =~= position_attributes());
        assert(instance_attributes@ =~= blur_instance_attributes());
    }
    VertexDescriptor { vertex_attributes, instance_attributes }
}

/// The instance attributes of line decoration instances.
pub open spec fn line_instance_attributes() -> Seq<VertexAttribute> {
    seq![
        VertexAttribute { name: "aTaskRect", count: 4, kind: VertexAttributeKind::F32 },
        VertexAttribute { name: "aLocalSize", count: 2, kind: VertexAttributeKind::F32 },
        VertexAttribute { name: "aWavyLineThickness", count: 1, kind: VertexAttributeKind::F32 },
        VertexAttribute { name: "aStyle", count: 1, kind: VertexAttributeKind::I32 },
        VertexAttribute { name: "aAxisSelect", count: 1, kind: VertexAttributeKind::F32 },
    ]
}

/// The layout of line decoration instances.
pub fn line() -> (descriptor: VertexDescriptor)
    ensures
        descriptor.vertex_attributes@ == position_attributes(),
        descriptor.instance_attributes@ == line_instance_attributes(),
{
    let mut vertex_attributes: Vec<VertexAttribute> = Vec::new();
    vertex_attributes.push(
        VertexAttribute { name: "aPosition", count: 2, kind: VertexAttributeKind::U8Norm },
    );
    let mut instance_attributes: Vec<VertexAttribute> = Vec::new();
    instance_attributes.push(
        VertexAttribute { name: "aTaskRect", count: 4, kind: VertexAttributeKind::F32 },
    );
    instance_attributes.push(
        VertexAttribute { name: "aLocalSize", count: 2, kind: VertexAttributeKind::F32 },
    );
    instance_attributes.push(
        VertexAttribute { name: "aWavyLineThickness", count: 1, kind: VertexAttributeKind::F32 },
    );
    instance_attributes.push(
        VertexAttribute { name: "aStyle", count: 1, kind: VertexAttributeKind::I32 },
    );
    instance_attributes.push(
        VertexAttribute { name: "aAxisSelect", count: 1, kind: VertexAttributeKind::F32 },
    );
    proof {
        assert(vertex_attributes@ =~= position_attributes());
        assert(instance_attributes@ =~= line_instance_attributes());
    }
    VertexDescriptor { vertex_attributes, instance_attributes }
}

/// The instance attributes of gradient instances.
pub open spec fn gradient_instance_attributes() -> Seq<VertexAttribute> {
    seq![
        VertexAttribute { name: "aTaskRect", count: 4, kind: VertexAttributeKind::F32 },
        VertexAttribute { name: "aStops", count: 4, kind: VertexAttributeKind::F32 },
        VertexAttribute { name: "aColor0", count: 4, kind: VertexAttributeKind::F32 },
        VertexAttribute { name: "aColor1", count: 4, kind: VertexAttributeKind::F32 },
        VertexAttribute { name: "aColor2", count: 4, kind: VertexAttributeKind::F32 },
        VertexAttribute { name: "aColor3", count: 4, kind: VertexAttributeKind::F32 },
        VertexAttribute { name: "aAxisSelect", count: 1, kind: VertexAttributeKind::F32 },
        VertexAttribute { name: "aStartStop", count: 2, kind: VertexAttributeKind::F32 },
    ]
}

/// The layout of gradient instances.
pub fn gradient() -> (descriptor: VertexDescriptor)
    ensures
        descriptor.vertex_attributes@ == position_attributes(),
        descriptor.instance_attributes@ == gradient_instance_attributes(),
{
    let mut vertex_attributes: Vec<VertexAttribute> = Vec::new();
    vertex_attributes.push(
        VertexAttribute { name: "aPosition", count: 2, kind: VertexAttributeKind::U8Norm },
    );
    let mut instance_attributes: Vec<VertexAttribute> = Vec::new();
    instance_attributes.push(
        VertexAttribute { name: "aTaskRect", count: 4, kind: VertexAttributeKind::F32 },
    );
    instance_attributes.push(
        VertexAttribute { name: "aStops", count: 4, kind: VertexAttributeKind::F32 },
    );
    instance_attributes.push(
        VertexAttribute { name: "aColor0", count: 4, kind: VertexAttributeKind::F32 },
    );
    instance_attributes.push(
        VertexAttribute { name: "aColor1", count: 4, kind: VertexAttributeKind::F32 },
    );
    instance_attributes.push(
        VertexAttribute { name: "aColor2", count: 4, kind: VertexAttributeKind::F32 },
    );
    instance_attributes.push(
        VertexAttribute { name: "aColor3", count: 4, kind: VertexAttributeKind::F32 },
    );
    instance_attributes.push(
        VertexAttribute { name: "aAxisSelect", count: 1, kind: VertexAttributeKind::F32 },
    );
    instance_attributes.push(
        VertexAttribute { name: "aStartStop", count: 2, kind: VertexAttributeKind::F32 },
    );
    proof {
        assert(vertex_attributes@ =~= position_attributes());
        assert(instance_attributes@ =~= gradient_instance_attributes());
    }
    VertexDescriptor { vertex_attributes, instance_attributes }
}

/// The instance attributes of border instances.
pub open spec fn border_instance_attributes() -> Seq<VertexAttribute> {
    seq![
        VertexAttribute { name: "aTaskOrigin", count: 2, kind: VertexAttributeKind::F32 },
        VertexAttribute { name: "aRect", count: 4, kind: VertexAttributeKind::F32 },
        VertexAttribute { name: "aColor0", count: 4, kind: VertexAttributeKind::F32 },
        VertexAttribute { name: "aColor1", count: 4, kind: VertexAttributeKind::F32 },
        VertexAttribute { name: "aFlags", count: 1, kind: VertexAttributeKind::I32 },
        VertexAttribute { name: "aWidths", count: 2, kind: VertexAttributeKind::F32 },
        VertexAttribute { name: "aRadii", count: 2, kind: VertexAttributeKind::F32 },
        VertexAttribute { name: "aClipParams1", count: 4, kind: VertexAttributeKind::F32 },
        VertexAttribute { name: "aClipParams2", count: 4, kind: VertexAttributeKind::F32 },
    ]
}

/// The layout of border instances.
pub fn border() -> (descriptor: VertexDescriptor)
    ensures
        descriptor.vertex_attributes@ == position_attributes(),
        descriptor.instance_attributes@ == border_instance_attributes(),
{
    let mut vertex_attributes: Vec<VertexAttribute> = Vec::new();
    vertex_attributes.push(
        VertexAttribute { name: "aPosition", count: 2, kind: VertexAttributeKind::U8Norm },
    );
    let mut instance_attributes: Vec<VertexAttribute> = Vec::new();
    instance_attributes.push(
        VertexAttribute { name: "aTaskOrigin", count: 2, kind: VertexAttributeKind::F32 },
    );
    instance_attributes.push(
        VertexAttribute { name: "aRect", count: 4, kind: VertexAttributeKind::F32 },
    );
    instance_attributes.push(
        VertexAttribute { name: "aColor0", count: 4, kind: VertexAttributeKind::F32 },
    );
    instance_attributes.push(
        VertexAttribute { name: "aColor1", count: 4, kind: VertexAttributeKind::F32 },
    );
    instance_attributes.push(
        VertexAttribute { name: "aFlags", count: 1, kind: VertexAttributeKind::I32 },
    );
    instance_attributes.push(
        VertexAttribute { name: "aWidths", count: 2, kind: VertexAttributeKind::F32 },
    );
    instance_attributes.push(
        VertexAttribute { name: "aRadii", count: 2, kind: VertexAttributeKind::F32 },
    );
    instance_attributes.push(
        VertexAttribute { name: "aClipParams1", count: 4, kind: VertexAttributeKind::F32 },
    );
    instance_attributes.push(
        VertexAttribute { name: "aClipParams2", count: 4, kind: VertexAttributeKind::F32 },
    );
    proof {
        assert(vertex_attributes@ =~= position_attributes());
        assert(instance_attributes@ =~= border_instance_attributes());
    }
    VertexDescriptor { vertex_attributes, instance_attributes }
}

/// The instance attributes of scaling instances.
pub open spec fn scale_instance_attributes() -> Seq<VertexAttribute> {
    seq![
        VertexAttribute { name: "aScaleTargetRect", count: 4, kind: VertexAttributeKind::F32 },
        VertexAttribute { name: "aScaleSourceRect", count: 4, kind: VertexAttributeKind::I32 },
        VertexAttribute { name: "aScaleSourceLayer", count: 1, kind: VertexAttributeKind::I32 },
    ]
}

/// The layout of scaling instances.
pub fn scale() -> (descriptor: VertexDescriptor)
    ensures
        descriptor.vertex_attributes@ == position_attributes(),
        descriptor.instance_attributes@ == scale_instance_attributes(),
{
    let mut vertex_attributes: Vec<VertexAttribute> = Vec::new();
    vertex_attributes.push(
        VertexAttribute { name: "aPosition", count: 2, kind: VertexAttributeKind::U8Norm },
    );
    let mut instance_attributes: Vec<VertexAttribute> = Vec::new();
    instance_attributes.push(
        VertexAttribute { name: "aScaleTargetRect", count: 4, kind: VertexAttributeKind::F32 },
    );
    instance_attributes.push(
        VertexAttribute { name: "aScaleSourceRect", count: 4, kind: VertexAttributeKind::I32 },
    );
    instance_attributes.push(
        VertexAttribute { name: "aScaleSourceLayer", count: 1, kind: VertexAttributeKind::I32 },
    );
    proof {
        assert(vertex_attributes@ =~= position_attributes());
        assert(instance_attributes@ =~= scale_instance_attributes());
    }
    VertexDescriptor { vertex_attributes, instance_attributes }
}

/// The instance attributes of rectangle clip mask instances.
pub open spec fn clip_rect_instance_attributes() -> Seq<VertexAttribute> {
    seq![
        VertexAttribute { name: "aClipDeviceArea", count: 4, kind: VertexAttributeKind::F32 },
        VertexAttribute { name: "aClipOrigins", count: 4, kind: VertexAttributeKind::F32 },
        VertexAttribute { name: "aDevicePixelScale", count: 1, kind: VertexAttributeKind::F32 },
        VertexAttribute { name: "aTransformIds", count: 2, kind: VertexAttributeKind::I32 },
        VertexAttribute { name: "aClipLocalPos", count: 2, kind: VertexAttributeKind::F32 },
        VertexAttribute { name: "aClipLocalRect", count: 4, kind: VertexAttributeKind::F32 },
        VertexAttribute { name: "aClipMode", count: 1, kind: VertexAttributeKind::F32 },
        VertexAttribute { name: "aClipRect_TL", count: 4, kind: VertexAttributeKind::F32 },
        VertexAttribute { name: "aClipRadii_TL", count: 4, kind: VertexAttributeKind::F32 },
        VertexAttribute { name: "aClipRect_TR", count: 4, kind: VertexAttributeKind::F32 },
        VertexAttribute { name: "aClipRadii_TR", count: 4, kind: VertexAttributeKind::F32 },
        VertexAttribute { name: "aClipRect_BL", count: 4, kind: VertexAttributeKind::F32 },
        VertexAttribute { name: "aClipRadii_BL", count: 4, kind: VertexAttributeKind::F32 },
        VertexAttribute { name: "aClipRect_BR", count: 4, kind: VertexAttributeKind::F32 },
        VertexAttribute { name: "aClipRadii_BR", count: 4, kind: VertexAttributeKind::F32 },
    ]
}

/// The layout of rectangle clip mask instances.
pub fn clip_rect() -> (descriptor: VertexDescriptor)
    ensures
        descriptor.vertex_attributes@ == position_attributes(),
        descriptor.instance_attributes@ == clip_rect_instance_attributes(),
{
    let mut vertex_attributes: Vec<VertexAttribute> = Vec::new();
    vertex_attributes.push(
        VertexAttribute { name: "aPosition", count: 2, kind: VertexAttributeKind::U8Norm },
    );
    let mut instance_attributes: Vec<VertexAttribute> = Vec::new();
    instance_attributes.push(
        VertexAttribute { name: "aClipDeviceArea", count: 4, kind: VertexAttributeKind::F32 },
    );
    instance_attributes.push(
        VertexAttribute { name: "aClipOrigins", count: 4, kind: VertexAttributeKind::F32 },
    );
    instance_attributes.push(
        VertexAttribute { name: "aDevicePixelScale", count: 1, kind: VertexAttributeKind::F32 },
    );
    instance_attributes.push(
        VertexAttribute { name: "aTransformIds", count: 2, kind: VertexAttributeKind::I32 },
    );
    instance_attributes.push(
        VertexAttribute { name: "aClipLocalPos", count: 2, kind: VertexAttributeKind::F32 },
    );
    instance_attributes.push(
        VertexAttribute { name: "aClipLocalRect", count: 4, kind: VertexAttributeKind::F32 },
    );
    instance_attributes.push(
        VertexAttribute { name: "aClipMode", count: 1, kind: VertexAttributeKind::F32 },
    );
    instance_attributes.push(
        VertexAttribute { name: "aClipRect_TL", count: 4, kind: VertexAttributeKind::F32 },
    );
    instance_attributes.push(
        VertexAttribute { name: "aClipRadii_TL", count: 4, kind: VertexAttributeKind::F32 },
    );
    instance_attributes.push(
        VertexAttribute { name: "aClipRect_TR", count: 4, kind: VertexAttributeKind::F32 },
    );
    instance_attributes.push(
        VertexAttribute { name: "aClipRadii_TR", count: 4, kind: VertexAttributeKind::F32 },
    );
    instance_attributes.push(
        VertexAttribute { name: "aClipRect_BL", count: 4, kind: VertexAttributeKind::F32 },
    );
    instance_attributes.push(
        VertexAttribute { name: "aClipRadii_BL", count: 4, kind: VertexAttributeKind::F32 },
    );
    instance_attributes.push(
        VertexAttribute { name: "aClipRect_BR", count: 4, kind: VertexAttributeKind::F32 },
    );
    instance_attributes.push(
        VertexAttribute { name: "aClipRadii_BR", count: 4, kind: VertexAttributeKind::F32 },
    );
    proof {
        assert(vertex_attributes@ =~= position_attributes());
        assert(instance_attributes@ =~= clip_rect_instance_attributes());
    }
    VertexDescriptor { vertex_attributes, instance_attributes }
}

/// The instance attributes of box shadow clip mask instances.
pub open spec fn clip_box_shadow_instance_attributes() -> Seq<VertexAttribute> {
    seq![
        VertexAttribute { name: "aClipDeviceArea", count: 4, kind: VertexAttributeKind::F32 },
        VertexAttribute { name: "aClipOrigins", count: 4, kind: VertexAttributeKind::F32 },
        VertexAttribute { name: "aDevicePixelScale", count: 1, kind: VertexAttributeKind::F32 },
        VertexAttribute { name: "aTransformIds", count: 2, kind: VertexAttributeKind::I32 },
        VertexAttribute { name: "aClipDataResourceAddress", count: 2, kind: VertexAttributeKind::U16 },
        VertexAttribute { name: "aClipSrcRectSize", count: 2, kind: VertexAttributeKind::F32 },
        VertexAttribute { name: "aClipMode", count: 1, kind: VertexAttributeKind::I32 },
        VertexAttribute { name: "aStretchMode", count: 2, kind: VertexAttributeKind::I32 },
        VertexAttribute { name: "aClipDestRect", count: 4, kind: VertexAttributeKind::F32 },
    ]
}

/// The layout of box shadow clip mask instances.
pub fn clip_box_shadow() -> (descriptor: VertexDescriptor)
    ensures
        descriptor.vertex_attributes@ == position_attributes(),
        descriptor.instance_attributes@ == clip_box_shadow_instance_attributes(),
{
    let mut vertex_attributes: Vec<VertexAttribute> = Vec::new();
    vertex_attributes.push(
        VertexAttribute { name: "aPosition", count: 2, kind: VertexAttributeKind::U8Norm },
    );
    let mut instance_attributes: Vec<VertexAttribute> = Vec::new();
    instance_attributes.push(
        VertexAttribute { name: "aClipDeviceArea", count: 4, kind: VertexAttributeKind::F32 },
    );
    instance_attributes.push(
        VertexAttribute { name: "aClipOrigins", count: 4, kind: VertexAttributeKind::F32 },
    );
    instance_attributes.push(
        VertexAttribute { name: "aDevicePixelScale", count: 1, kind: VertexAttributeKind::F32 },
    );
    instance_attributes.push(
        VertexAttribute { name: "aTransformIds", count: 2, kind: VertexAttributeKind::I32 },
    );
    instance_attributes.push(
        VertexAttribute { name: "aClipDataResourceAddress", count: 2, kind: VertexAttributeKind::U16 },
    );
    instance_attributes.push(
        VertexAttribute { name: "aClipSrcRectSize", count: 2, kind: VertexAttributeKind::F32 },
    );
    instance_attributes.push(
        VertexAttribute { name: "aClipMode", count: 1, kind: VertexAttributeKind::I32 },
    );
    instance_attributes.push(
        VertexAttribute { name: "aStretchMode", count: 2, kind: VertexAttributeKind::I32 },
    );
    instance_attributes.push(
        VertexAttribute { name: "aClipDestRect", count: 4, kind: VertexAttributeKind::F32 },
    );
    proof {
        assert(vertex_attributes@ =~= position_attributes());
        assert(instance_attributes@ =~= clip_box_shadow_instance_attributes());
    }
    VertexDescriptor { vertex_attributes, instance_attributes }
}

/// The instance attributes of image clip mask instances.
pub open spec fn clip_image_instance_attributes() -> Seq<VertexAttribute> {
    seq![
        VertexAttribute { name: "aClipDeviceArea", count: 4, kind: VertexAttributeKind::F32 },
        VertexAttribute { name: "aClipOrigins", count: 4, kind: VertexAttributeKind::F32 },
        VertexAttribute { name: "aDevicePixelScale", count: 1, kind: VertexAttributeKind::F32 },
        VertexAttribute { name: "aTransformIds", count: 2, kind: VertexAttributeKind::I32 },
        VertexAttribute { name: "aClipTileRect", count: 4, kind: VertexAttributeKind::F32 },
        VertexAttribute { name: "aClipDataResourceAddress", count: 2, kind: VertexAttributeKind::U16 },
        VertexAttribute { name: "aClipLocalRect", count: 4, kind: VertexAttributeKind::F32 },
    ]
}

/// The layout of image clip mask instances.
pub fn clip_image() -> (descriptor: VertexDescriptor)
    ensures
        descriptor.vertex_attributes@ == position_attributes(),
        descriptor.instance_attributes@ == clip_image_instance_attributes(),
{
    let mut vertex_attributes: Vec<VertexAttribute> = Vec::new();
    vertex_attributes.push(
        VertexAttribute { name: "aPosition", count: 2, kind: VertexAttributeKind::U8Norm },
    );
    let mut instance_attributes: Vec<VertexAttribute> = Vec::new();
    instance_attributes.push(
        VertexAttribute { name: "aClipDeviceArea", count: 4, kind: VertexAttributeKind::F32 },
    );
    instance_attributes.push(
        VertexAttribute { name: "aClipOrigins", count: 4, kind: VertexAttributeKind::F32 },
    );
    instance_attributes.push(
        VertexAttribute { name: "aDevicePixelScale", count: 1, kind: VertexAttributeKind::F32 },
    );
    instance_attributes.push(
        VertexAttribute { name: "aTransformIds", count: 2, kind: VertexAttributeKind::I32 },
    );
    instance_attributes.push(
        VertexAttribute { name: "aClipTileRect", count: 4, kind: VertexAttributeKind::F32 },
    );
    instance_attributes.push(
        VertexAttribute { name: "aClipDataResourceAddress", count: 2, kind: VertexAttributeKind::U16 },
    );
    instance_attributes.push(
        VertexAttribute { name: "aClipLocalRect", count: 4, kind: VertexAttributeKind::F32 },
    );
    proof {
        assert(vertex_attributes@ =~= position_attributes());
        assert(instance_attributes@ =~= clip_image_instance_attributes());
    }
    VertexDescriptor { vertex_attributes, instance_attributes }
}

/// The instance attributes of GPU cache updates.
pub open spec fn gpu_cache_update_instance_attributes() -> Seq<VertexAttribute> {
    Seq::empty()
}

/// The layout of GPU cache updates.
pub fn gpu_cache_update() -> (descriptor: VertexDescriptor)
    ensures
        descriptor.vertex_attributes@ == gpu_cache_update_vertex_attributes(),
        descriptor.instance_attributes@ == gpu_cache_update_instance_attributes(),
{
    let mut vertex_attributes: Vec<VertexAttribute> = Vec::new();
    vertex_attributes.push(
        VertexAttribute { name: "aPosition", count: 2, kind: VertexAttributeKind::U16Norm },
    );
    vertex_attributes.push(
        VertexAttribute { name: "aValue", count: 4, kind: VertexAttributeKind::F32 },
    );
    let mut instance_attributes: Vec<VertexAttribute> = Vec::new();
    proof {
        assert(vertex_attributes@ =~= gpu_cache_update_vertex_attributes());
        assert(instance_attributes@ =~= gpu_cache_update_instance_attributes());
    }
    VertexDescriptor { vertex_attributes, instance_attributes }
}

/// The instance attributes of resolve instances.
pub open spec fn resolve_instance_attributes() -> Seq<VertexAttribute> {
    seq![
        VertexAttribute { name: "aRect", count: 4, kind: VertexAttributeKind::F32 },
    ]
}

/// The layout of resolve instances.
pub fn resolve() -> (descriptor: VertexDescriptor)
    ensures
        descriptor.vertex_attributes@ == position_attributes(),
        descriptor.instance_attributes@ == resolve_instance_attributes(),
{
    let mut vertex_attributes: Vec<VertexAttribute> = Vec::new();
    vertex_attributes.push(
        VertexAttribute { name: "aPosition", count: 2, kind: VertexAttributeKind::U8Norm },
    );
    let mut instance_attributes: Vec<VertexAttribute> = Vec::new();
    instance_attributes.push(
        VertexAttribute { name: "aRect", count: 4, kind: VertexAttributeKind::F32 },
    );
    proof {
        assert(vertex_attributes@ =~= position_attributes());
        assert(instance_attributes@ =~= resolve_instance_attributes());
    }
    VertexDescriptor { vertex_attributes, instance_attributes }
}

/// The instance attributes of SVG filter instances.
pub open spec fn svg_filter_instance_attributes() -> Seq<VertexAttribute> {
    seq![
        VertexAttribute { name: "aFilterRenderTaskAddress", count: 1, kind: VertexAttributeKind::U16 },
        VertexAttribute { name: "aFilterInput1TaskAddress", count: 1, kind: VertexAttributeKind::U16 },
        VertexAttribute { name: "aFilterInput2TaskAddress", count: 1, kind: VertexAttributeKind::U16 },
        VertexAttribute { name: "aFilterKind", count: 1, kind: VertexAttributeKind::U16 },
        VertexAttribute { name: "aFilterInputCount", count: 1, kind: VertexAttributeKind::U16 },
        VertexAttribute { name: "aFilterGenericInt", count: 1, kind: VertexAttributeKind::U16 },
        VertexAttribute { name: "aFilterExtraDataAddress", count: 2, kind: VertexAttributeKind::U16 },
    ]
}

/// The layout of SVG filter instances.
pub fn svg_filter() -> (descriptor: VertexDescriptor)
    ensures
        descriptor.vertex_attributes@ == position_attributes(),
        descriptor.instance_attributes@ == svg_filter_instance_attributes(),
{
    let mut vertex_attributes: Vec<VertexAttribute> = Vec::new();
    vertex_attributes.push(
        VertexAttribute { name: "aPosition", count: 2, kind: VertexAttributeKind::U8Norm },
    );
    let mut instance_attributes: Vec<VertexAttribute> = Vec::new();
    instance_attributes.push(
        VertexAttribute { name: "aFilterRenderTaskAddress", count: 1, kind: VertexAttributeKind::U16 },
    );
    instance_attributes.push(
        VertexAttribute { name: "aFilterInput1TaskAddress", count: 1, kind: VertexAttributeKind::U16 },
    );
    instance_attributes.push(
        VertexAttribute { name: "aFilterInput2TaskAddress", count: 1, kind: VertexAttributeKind::U16 },
    );
    instance_attributes.push(
        VertexAttribute { name: "aFilterKind", count: 1, kind: VertexAttributeKind::U16 },
    );
    instance_attributes.push(
        VertexAttribute { name: "aFilterInputCount", count: 1, kind: VertexAttributeKind::U16 },
    );
    instance_attributes.push(
        VertexAttribute { name: "aFilterGenericInt", count: 1, kind: VertexAttributeKind::U16 },
    );
    instance_attributes.push(
        VertexAttribute { name: "aFilterExtraDataAddress", count: 2, kind: VertexAttributeKind::U16 },
    );
    proof {
        assert(vertex_attributes@ =~= position_attributes());
        assert(instance_attributes@ =~= svg_filter_instance_attributes());
    }
    VertexDescriptor { vertex_attributes, instance_attributes }
}

/// The instance attributes of vector stencil instances.
pub open spec fn vector_stencil_instance_attributes() -> Seq<VertexAttribute> {
    seq![
        VertexAttribute { name: "aFromPosition", count: 2, kind: VertexAttributeKind::F32 },
        VertexAttribute { name: "aCtrlPosition", count: 2, kind: VertexAttributeKind::F32 },
        VertexAttribute { name: "aToPosition", count: 2, kind: VertexAttributeKind::F32 },
        VertexAttribute { name: "aFromNormal", count: 2, kind: VertexAttributeKind::F32 },
        VertexAttribute { name: "aCtrlNormal", count: 2, kind: VertexAttributeKind::F32 },
        VertexAttribute { name: "aToNormal", count: 2, kind: VertexAttributeKind::F32 },
        VertexAttribute { name: "aPathID", count: 1, kind: VertexAttributeKind::U16 },
        VertexAttribute { name: "aPad", count: 1, kind: VertexAttributeKind::U16 },
    ]
}

/// The layout of vector stencil instances.
pub fn vector_stencil() -> (descriptor: VertexDescriptor)
    ensures
        descriptor.vertex_attributes@ == position_attributes(),
        descriptor.instance_attributes@ == vector_stencil_instance_attributes(),
{
    let mut vertex_attributes: Vec<VertexAttribute> = Vec::new();
    vertex_attributes.push(
        VertexAttribute { name: "aPosition", count: 2, kind: VertexAttributeKind::U8Norm },
    );
    let mut instance_attributes: Vec<VertexAttribute> = Vec::new();
    instance_attributes.push(
        VertexAttribute { name: "aFromPosition", count: 2, kind: VertexAttributeKind::F32 },
    );
    instance_attributes.push(
        VertexAttribute { name: "aCtrlPosition", count: 2, kind: VertexAttributeKind::F32 },
    );
    instance_attributes.push(
        VertexAttribute { name: "aToPosition", count: 2, kind: VertexAttributeKind::F32 },
    );
    instance_attributes.push(
        VertexAttribute { name: "aFromNormal", count: 2, kind: VertexAttributeKind::F32 },
    );
    instance_attributes.push(
        VertexAttribute { name: "aCtrlNormal", count: 2, kind: VertexAttributeKind::F32 },
    );
    instance_attributes.push(
        VertexAttribute { name: "aToNormal", count: 2, kind: VertexAttributeKind::F32 },
    );
    instance_attributes.push(
        VertexAttribute { name: "aPathID", count: 1, kind: VertexAttributeKind::U16 },
    );
    instance_attributes.push(
        VertexAttribute { name: "aPad", count: 1, kind: VertexAttributeKind::U16 },
    );
    proof {
        assert(vertex_attributes@ =~= position_attributes());
        assert(instance_attributes@ =~= vector_stencil_instance_attributes());
    }
    VertexDescriptor { vertex_attributes, instance_attributes }
}

/// The instance attributes of vector cover instances.
pub open spec fn vector_cover_instance_attributes() -> Seq<VertexAttribute> {
    seq![
        VertexAttribute { name: "aTargetRect", count: 4, kind: VertexAttributeKind::I32 },
        VertexAttribute { name: "aStencilOrigin", count: 2, kind: VertexAttributeKind::I32 },
        VertexAttribute { name: "aSubpixel", count: 1, kind: VertexAttributeKind::U16 },
        VertexAttribute { name: "aPad", count: 1, kind: VertexAttributeKind::U16 },
    ]
}

/// The layout of vector cover instances.
pub fn vector_cover() -> (descriptor: VertexDescriptor)
    ensures
        descriptor.vertex_attributes@ == position_attributes(),
        descriptor.instance_attributes@ == vector_cover_instance_attributes(),
{
    let mut vertex_attributes: Vec<VertexAttribute> = Vec::new();
    vertex_attributes.push(
        VertexAttribute { name: "aPosition", count: 2, kind: VertexAttributeKind::U8Norm },
    );
    let mut instance_attributes: Vec<VertexAttribute> = Vec::new();
    instance_attributes.push(
        VertexAttribute { name: "aTargetRect", count: 4, kind: VertexAttributeKind::I32 },
    );
    instance_attributes.push(
        VertexAttribute { name: "aStencilOrigin", count: 2, kind: VertexAttributeKind::I32 },
    );
    instance_attributes.push(
        VertexAttribute { name: "aSubpixel", count: 1, kind: VertexAttributeKind::U16 },
    );
    instance_attributes.push(
        VertexAttribute { name: "aPad", count: 1, kind: VertexAttributeKind::U16 },
    );
    proof {
        assert(vertex_attributes@ =~= position_attributes());
        assert(instance_attributes@ =~= vector_cover_instance_attributes());
    }
    VertexDescriptor { vertex_attributes, instance_attributes }
}

/// The instance attributes of composite instances.
pub open spec fn composite_instance_attributes() -> Seq<VertexAttribute> {
    seq![
        VertexAttribute { name: "aDeviceRect", count: 4, kind: VertexAttributeKind::F32 },
        VertexAttribute { name: "aDeviceClipRect", count: 4, kind: VertexAttributeKind::F32 },
        VertexAttribute { name: "aColor", count: 4, kind: VertexAttributeKind::F32 },
        VertexAttribute { name: "aParams", count: 4, kind: VertexAttributeKind::F32 },
        VertexAttribute { name: "aUvRect0", count: 4, kind: VertexAttributeKind::F32 },
        VertexAttribute { name: "aUvRect1", count: 4, kind: VertexAttributeKind::F32 },
        VertexAttribute { name: "aUvRect2", count: 4, kind: VertexAttributeKind::F32 },
        VertexAttribute { name: "aTextureLayers", count: 3, kind: VertexAttributeKind::F32 },
    ]
}

/// The layout of composite instances.
pub fn composite() -> (descriptor: VertexDescriptor)
    ensures
        descriptor.vertex_attributes@ == position_attributes(),
        descriptor.instance_attributes@ == composite_instance_attributes(),
{
    let mut vertex_attributes: Vec<VertexAttribute> = Vec::new();
    vertex_attributes.push(
        VertexAttribute { name: "aPosition", count: 2, kind: VertexAttributeKind::U8Norm },
    );
    let mut instance_attributes: Vec<VertexAttribute> = Vec::new();
    instance_attributes.push(
        VertexAttribute { name: "aDeviceRect", count: 4, kind: VertexAttributeKind::F32 },
    );
    instance_attributes.push(
        VertexAttribute { name: "aDeviceClipRect", count: 4, kind: VertexAttributeKind::F32 },
    );
    instance_attributes.push(
        VertexAttribute { name: "aColor", count: 4, kind: VertexAttributeKind::F32 },
    );
    instance_attributes.push(
        VertexAttribute { name: "aParams", count: 4, kind: VertexAttributeKind::F32 },
    );
    instance_attributes.push(
        VertexAttribute { name: "aUvRect0", count: 4, kind: VertexAttributeKind::F32 },
    );
    instance_attributes.push(
        VertexAttribute { name: "aUvRect1", count: 4, kind: VertexAttributeKind::F32 },
    );
    instance_attributes.push(
        VertexAttribute { name: "aUvRect2", count: 4, kind: VertexAttributeKind::F32 },
    );
    instance_attributes.push(
        VertexAttribute { name: "aTextureLayers", count: 3, kind: VertexAttributeKind::F32 },
    );
    proof {
        assert(vertex_attributes@ =~= position_attributes());
        assert(instance_attributes@ =~= composite_instance_attributes());
    }
    VertexDescriptor { vertex_attributes, instance_attributes }
}

/// The instance attributes of clear instances.
pub open spec fn clear_instance_attributes() -> Seq<VertexAttribute> {
    seq![
        VertexAttribute { name: "aRect", count: 4, kind: VertexAttributeKind::F32 },
        VertexAttribute { name: "aColor", count: 4, kind: VertexAttributeKind::F32 },
    ]
}

/// The layout of clear instances.
pub fn clear() -> (descriptor: VertexDescriptor)
    ensures
        descriptor.vertex_attributes@ == position_attributes(),
        descriptor.instance_attributes@ == clear_instance_attributes(),
{
    let mut vertex_attributes: Vec<VertexAttribute> = Vec::new();
    vertex_attributes.push(
        VertexAttribute { name: "aPosition", count: 2, kind: VertexAttributeKind::U8Norm },
    );
    let mut instance_attributes: Vec<VertexAttribute> = Vec::new();
    instance_attributes.push(
        VertexAttribute { name: "aRect", count: 4, kind: VertexAttributeKind::F32 },
    );
    instance_attributes.push(
        VertexAttribute { name: "aColor", count: 4, kind: VertexAttributeKind::F32 },
    );
    proof {
        assert(vertex_attributes@ =~= position_attributes());
        assert(instance_attributes@ =~= clear_instance_attributes());
    }
    VertexDescriptor { vertex_attributes, instance_attributes }
}

impl NamedDescriptor {
    /// The attributes that the layout reads once per vertex.
    pub open spec fn spec_vertex_attributes(self) -> Seq<VertexAttribute> {
        match self {
            NamedDescriptor::GpuCacheUpdate => gpu_cache_update_vertex_attributes(),
            _ => position_attributes(),
        }
    }

    /// The attributes that the layout reads once per instance.
    pub open spec fn spec_instance_attributes(self) -> Seq<VertexAttribute> {
        match self {
            NamedDescriptor::PrimInstances => prim_instances_instance_attributes(),
            NamedDescriptor::Blur => blur_instance_attributes(),
            NamedDescriptor::Line => line_instance_attributes(),
            NamedDescriptor::Gradient => gradient_instance_attributes(),
            NamedDescriptor::Border => border_instance_attributes(),
            NamedDescriptor::Scale => scale_instance_attributes(),
            NamedDescriptor::ClipRect => clip_rect_instance_attributes(),
            NamedDescriptor::ClipBoxShadow => clip_box_shadow_instance_attributes(),
            NamedDescriptor::ClipImage => clip_image_instance_attributes(),
            NamedDescriptor::GpuCacheUpdate => gpu_cache_update_instance_attributes(),
            NamedDescriptor::Resolve => resolve_instance_attributes(),
            NamedDescriptor::SvgFilter => svg_filter_instance_attributes(),
            NamedDescriptor::VectorStencil => vector_stencil_instance_attributes(),
            NamedDescriptor::VectorCover => vector_cover_instance_attributes(),
            NamedDescriptor::Composite => composite_instance_attributes(),
            NamedDescriptor::Clear => clear_instance_attributes(),
        }
    }

    /// The layout, attribute by attribute.
    pub fn descriptor(self) -> (descriptor: VertexDescriptor)
        ensures
            descriptor.vertex_attributes@ == self.spec_vertex_attributes(),
            descriptor.instance_attributes@ == self.spec_instance_attributes(),
            descriptor.wf(),
            descriptor.spec_instance_stride() == self.spec_instance_stride(),
    {
        proof {
            self.lemma_attributes_wf();
            self.lemma_instance_stride();
        }
        match self {
            NamedDescriptor::PrimInstances => prim_instances(),
            NamedDescriptor::Blur => blur(),
            NamedDescriptor::Line => line(),
            NamedDescriptor::Gradient => gradient(),
            NamedDescriptor::Border => border(),
            NamedDescriptor::Scale => scale(),
            NamedDescriptor::ClipRect => clip_rect(),
            NamedDescriptor::ClipBoxShadow => clip_box_shadow(),
            NamedDescriptor::ClipImage => clip_image(),
            NamedDescriptor::GpuCacheUpdate => gpu_cache_update(),
            NamedDescriptor::Resolve => resolve(),
            NamedDescriptor::SvgFilter => svg_filter(),
            NamedDescriptor::VectorStencil => vector_stencil(),
            NamedDescriptor::VectorCover => vector_cover(),
            NamedDescriptor::Composite => composite(),
            NamedDescriptor::Clear => clear(),
        }
    }

    /// Every attribute of every layout has between one and four components.
    pub proof fn lemma_attributes_wf(self)
        ensures
            forall|i: int|
                0 <= i < self.spec_vertex_attributes().len() ==> (
                #[trigger] self.spec_vertex_attributes()[i]).wf(),
            forall|i: int|
                0 <= i < self.spec_instance_attributes().len() ==> (
                #[trigger] self.spec_instance_attributes()[i]).wf(),
    {
    }

    /// The instance stride of each layout is the sum of the sizes of its
    /// instance attributes.
    pub proof fn lemma_instance_stride(self)
        ensures
            self.spec_instance_stride() == attributes_size(self.spec_instance_attributes()),
    {
        match self {
            NamedDescriptor::PrimInstances => lemma_prim_instances_stride(),
            NamedDescriptor::Blur => lemma_blur_stride(),
            NamedDescriptor::Line => lemma_line_stride(),
            NamedDescriptor::Gradient => lemma_gradient_stride(),
            NamedDescriptor::Border => lemma_border_stride(),
            NamedDescriptor::Scale => lemma_scale_stride(),
            NamedDescriptor::ClipRect => lemma_clip_rect_stride(),
            NamedDescriptor::ClipBoxShadow => lemma_clip_box_shadow_stride(),
            NamedDescriptor::ClipImage => lemma_clip_image_stride(),
            NamedDescriptor::GpuCacheUpdate => lemma_gpu_cache_update_stride(),
            NamedDescriptor::Resolve => lemma_resolve_stride(),
            NamedDescriptor::SvgFilter => lemma_svg_filter_stride(),
            NamedDescriptor::VectorStencil => lemma_vector_stencil_stride(),
            NamedDescriptor::VectorCover => lemma_vector_cover_stride(),
            NamedDescriptor::Composite => lemma_composite_stride(),
            NamedDescriptor::Clear => lemma_clear_stride(),
        }
    }
}

proof fn lemma_prim_instances_stride()
    ensures
        attributes_size(prim_instances_instance_attributes()) == 16,
{
    let attributes = prim_instances_instance_attributes();
    assert(attributes.len() == 1);
    assert(attributes_size_up_to(attributes, 0) == 0);
    assert(attributes[0].spec_size_in_bytes() == 16);
    assert(attributes_size_up_to(attributes, 1) == 16);
}

proof fn lemma_blur_stride()
    ensures
        attributes_size(blur_instance_attributes()) == 8,
{
    let attributes = blur_instance_attributes();
    assert(attributes.len() == 3);
    assert(attributes_size_up_to(attributes, 0) == 0);
    assert(attributes[0].spec_size_in_bytes() == 2);
    assert(attributes_size_up_to(attributes, 1) == 2);
    assert(attributes[1].spec_size_in_bytes() == 2);
    assert(attributes_size_up_to(attributes, 2) == 4);
    assert(attributes[2].spec_size_in_bytes() == 4);
    assert(attributes_size_up_to(attributes, 3) == 8);
}

proof fn lemma_line_stride()
    ensures
        attributes_size(line_instance_attributes()) == 36,
{
    let attributes = line_instance_attributes();
    assert(attributes.len() == 5);
    assert(attributes_size_up_to(attributes, 0) == 0);
    assert(attributes[0].spec_size_in_bytes() == 16);
    assert(attributes_size_up_to(attributes, 1) == 16);
    assert(attributes[1].spec_size_in_bytes() == 8);
    assert(attributes_size_up_to(attributes, 2) == 24);
    assert(attributes[2].spec_size_in_bytes() == 4);
    assert(attributes_size_up_to(attributes, 3) == 28);
    assert(attributes[3].spec_size_in_bytes() == 4);
    assert(attributes_size_up_to(attributes, 4) == 32);
    assert(attributes[4].spec_size_in_bytes() == 4);
    assert(attributes_size_up_to(attributes, 5) == 36);
}

proof fn lemma_gradient_stride()
    ensures
        attributes_size(gradient_instance_attributes()) == 108,
{
    let attributes = gradient_instance_attributes();
    assert(attributes.len() == 8);
    assert(attributes_size_up_to(attributes, 0) == 0);
    assert(attributes[0].spec_size_in_bytes() == 16);
    assert(attributes_size_up_to(attributes, 1) == 16);
    assert(attributes[1].spec_size_in_bytes() == 16);
    assert(attributes_size_up_to(attributes, 2) == 32);
    assert(attributes[2].spec_size_in_bytes() == 16);
    assert(attributes_size_up_to(attributes, 3) == 48);
    assert(attributes[3].spec_size_in_bytes() == 16);
    assert(attributes_size_up_to(attributes, 4) == 64);
    assert(attributes[4].spec_size_in_bytes() == 16);
    assert(attributes_size_up_to(attributes, 5) == 80);
    assert(attributes[5].spec_size_in_bytes() == 16);
    assert(attributes_size_up_to(attributes, 6) == 96);
    assert(attributes[6].spec_size_in_bytes() == 4);
    assert(attributes_size_up_to(attributes, 7) == 100);
    assert(attributes[7].spec_size_in_bytes() == 8);
    assert(attributes_size_up_to(attributes, 8) == 108);
}

proof fn lemma_border_stride()
    ensures
        attributes_size(border_instance_attributes()) == 108,
{
    let attributes = border_instance_attributes();
    assert(attributes.len() == 9);
    assert(attributes_size_up_to(attributes, 0) == 0);
    assert(attributes[0].spec_size_in_bytes() == 8);
    assert(attributes_size_up_to(attributes, 1) == 8);
    assert(attributes[1].spec_size_in_bytes() == 16);
    assert(attributes_size_up_to(attributes, 2) == 24);
    assert(attributes[2].spec_size_in_bytes() == 16);
    assert(attributes_size_up_to(attributes, 3) == 40);
    assert(attributes[3].spec_size_in_bytes() == 16);
    assert(attributes_size_up_to(attributes, 4) == 56);
    assert(attributes[4].spec_size_in_bytes() == 4);
    assert(attributes_size_up_to(attributes, 5) == 60);
    assert(attributes[5].spec_size_in_bytes() == 8);
    assert(attributes_size_up_to(attributes, 6) == 68);
    assert(attributes[6].spec_size_in_bytes() == 8);
    assert(attributes_size_up_to(attributes, 7) == 76);
    assert(attributes[7].spec_size_in_bytes() == 16);
    assert(attributes_size_up_to(attributes, 8) == 92);
    assert(attributes[8].spec_size_in_bytes() == 16);
    assert(attributes_size_up_to(attributes, 9) == 108);
}

proof fn lemma_scale_stride()
    ensures
        attributes_size(scale_instance_attributes()) == 36,
{
    let attributes = scale_instance_attributes();
    assert(attributes.len() == 3);
    assert(attributes_size_up_to(attributes, 0) == 0);
    assert(attributes[0].spec_size_in_bytes() == 16);
    assert(attributes_size_up_to(attributes, 1) == 16);
    assert(attributes[1].spec_size_in_bytes() == 16);
    assert(attributes_size_up_to(attributes, 2) == 32);
    assert(attributes[2].spec_size_in_bytes() == 4);
    assert(attributes_size_up_to(attributes, 3) == 36);
}

proof fn lemma_clip_rect_stride()
    ensures
        attributes_size(clip_rect_instance_attributes()) == 200,
{
    let attributes = clip_rect_instance_attributes();
    assert(attributes.len() == 15);
    assert(attributes_size_up_to(attributes, 0) == 0);
    assert(attributes[0].spec_size_in_bytes() == 16);
    assert(attributes_size_up_to(attributes, 1) == 16);
    assert(attributes[1].spec_size_in_bytes() == 16);
    assert(attributes_size_up_to(attributes, 2) == 32);
    assert(attributes[2].spec_size_in_bytes() == 4);
    assert(attributes_size_up_to(attributes, 3) == 36);
    assert(attributes[3].spec_size_in_bytes() == 8);
    assert(attributes_size_up_to(attributes, 4) == 44);
    assert(attributes[4].spec_size_in_bytes() == 8);
    assert(attributes_size_up_to(attributes, 5) == 52);
    assert(attributes[5].spec_size_in_bytes() == 16);
    assert(attributes_size_up_to(attributes, 6) == 68);
    assert(attributes[6].spec_size_in_bytes() == 4);
    assert(attributes_size_up_to(attributes, 7) == 72);
    assert(attributes[7].spec_size_in_bytes() == 16);
    assert(attributes_size_up_to(attributes, 8) == 88);
    assert(attributes[8].spec_size_in_bytes() == 16);
    assert(attributes_size_up_to(attributes, 9) == 104);
    assert(attributes[9].spec_size_in_bytes() == 16);
    assert(attributes_size_up_to(attributes, 10) == 120);
    assert(attributes[10].spec_size_in_bytes() == 16);
    assert(attributes_size_up_to(attributes, 11) == 136);
    assert(attributes[11].spec_size_in_bytes() == 16);
    assert(attributes_size_up_to(attributes, 12) == 152);
    assert(attributes[12].spec_size_in_bytes() == 16);
    assert(attributes_size_up_to(attributes, 13) == 168);
    assert(attributes[13].spec_size_in_bytes() == 16);
    assert(attributes_size_up_to(attributes, 14) == 184);
    assert(attributes[14].spec_size_in_bytes() == 16);
    assert(attributes_size_up_to(attributes, 15) == 200);
}

proof fn lemma_clip_box_shadow_stride()
    ensures
        attributes_size(clip_box_shadow_instance_attributes()) == 84,
{
    let attributes = clip_box_shadow_instance_attributes();
    assert(attributes.len() == 9);
    assert(attributes_size_up_to(attributes, 0) == 0);
    assert(attributes[0].spec_size_in_bytes() == 16);
    assert(attributes_size_up_to(attributes, 1) == 16);
    assert(attributes[1].spec_size_in_bytes() == 16);
    assert(attributes_size_up_to(attributes, 2) == 32);
    assert(attributes[2].spec_size_in_bytes() == 4);
    assert(attributes_size_up_to(attributes, 3) == 36);
    assert(attributes[3].spec_size_in_bytes() == 8);
    assert(attributes_size_up_to(attributes, 4) == 44);
    assert(attributes[4].spec_size_in_bytes() == 4);
    assert(attributes_size_up_to(attributes, 5) == 48);
    assert(attributes[5].spec_size_in_bytes() == 8);
    assert(attributes_size_up_to(attributes, 6) == 56);
    assert(attributes[6].spec_size_in_bytes() == 4);
    assert(attributes_size_up_to(attributes, 7) == 60);
    assert(attributes[7].spec_size_in_bytes() == 8);
    assert(attributes_size_up_to(attributes, 8) == 68);
    assert(attributes[8].spec_size_in_bytes() == 16);
    assert(attributes_size_up_to(attributes, 9) == 84);
}

proof fn lemma_clip_image_stride()
    ensures
        attributes_size(clip_image_instance_attributes()) == 80,
{
    let attributes = clip_image_instance_attributes();
    assert(attributes.len() == 7);
    assert(attributes_size_up_to(attributes, 0) == 0);
    assert(attributes[0].spec_size_in_bytes() == 16);
    assert(attributes_size_up_to(attributes, 1) == 16);
    assert(attributes[1].spec_size_in_bytes() == 16);
    assert(attributes_size_up_to(attributes, 2) == 32);
    assert(attributes[2].spec_size_in_bytes() == 4);
    assert(attributes_size_up_to(attributes, 3) == 36);
    assert(attributes[3].spec_size_in_bytes() == 8);
    assert(attributes_size_up_to(attributes, 4) == 44);
    assert(attributes[4].spec_size_in_bytes() == 16);
    assert(attributes_size_up_to(attributes, 5) == 60);
    assert(attributes[5].spec_size_in_bytes() == 4);
    assert(attributes_size_up_to(attributes, 6) == 64);
    assert(attributes[6].spec_size_in_bytes() == 16);
    assert(attributes_size_up_to(attributes, 7) == 80);
}

proof fn lemma_gpu_cache_update_stride()
    ensures
        attributes_size(gpu_cache_update_instance_attributes()) == 0,
{
    let attributes = gpu_cache_update_instance_attributes();
    assert(attributes.len() == 0);
    assert(attributes_size_up_to(attributes, 0) == 0);
}

proof fn lemma_resolve_stride()
    ensures
        attributes_size(resolve_instance_attributes()) == 16,
{
    let attributes = resolve_instance_attributes();
    assert(attributes.len() == 1);
    assert(attributes_size_up_to(attributes, 0) == 0);
    assert(attributes[0].spec_size_in_bytes() == 16);
    assert(attributes_size_up_to(attributes, 1) == 16);
}

proof fn lemma_svg_filter_stride()
    ensures
        attributes_size(svg_filter_instance_attributes()) == 16,
{
    let attributes = svg_filter_instance_attributes();
    assert(attributes.len() == 7);
    assert(attributes_size_up_to(attributes, 0) == 0);
    assert(attributes[0].spec_size_in_bytes() == 2);
    assert(attributes_size_up_to(attributes, 1) == 2);
    assert(attributes[1].spec_size_in_bytes() == 2);
    assert(attributes_size_up_to(attributes, 2) == 4);
    assert(attributes[2].spec_size_in_bytes() == 2);
    assert(attributes_size_up_to(attributes, 3) == 6);
    assert(attributes[3].spec_size_in_bytes() == 2);
    assert(attributes_size_up_to(attributes, 4) == 8);
    assert(attributes[4].spec_size_in_bytes() == 2);
    assert(attributes_size_up_to(attributes, 5) == 10);
    assert(attributes[5].spec_size_in_bytes() == 2);
    assert(attributes_size_up_to(attributes, 6) == 12);
    assert(attributes[6].spec_size_in_bytes() == 4);
    assert(attributes_size_up_to(attributes, 7) == 16);
}

proof fn lemma_vector_stencil_stride()
    ensures
        attributes_size(vector_stencil_instance_attributes()) == 52,
{
    let attributes = vector_stencil_instance_attributes();
    assert(attributes.len() == 8);
    assert(attributes_size_up_to(attributes, 0) == 0);
    assert(attributes[0].spec_size_in_bytes() == 8);
    assert(attributes_size_up_to(attributes, 1) == 8);
    assert(attributes[1].spec_size_in_bytes() == 8);
    assert(attributes_size_up_to(attributes, 2) == 16);
    assert(attributes[2].spec_size_in_bytes() == 8);
    assert(attributes_size_up_to(attributes, 3) == 24);
    assert(attributes[3].spec_size_in_bytes() == 8);
    assert(attributes_size_up_to(attributes, 4) == 32);
    assert(attributes[4].spec_size_in_bytes() == 8);
    assert(attributes_size_up_to(attributes, 5) == 40);
    assert(attributes[5].spec_size_in_bytes() == 8);
    assert(attributes_size_up_to(attributes, 6) == 48);
    assert(attributes[6].spec_size_in_bytes() == 2);
    assert(attributes_size_up_to(attributes, 7) == 50);
    assert(attributes[7].spec_size_in_bytes() == 2);
    assert(attributes_size_up_to(attributes, 8) == 52);
}

proof fn lemma_vector_cover_stride()
    ensures
        attributes_size(vector_cover_instance_attributes()) == 28,
{
    let attributes = vector_cover_instance_attributes();
    assert(attributes.len() == 4);
    assert(attributes_size_up_to(attributes, 0) == 0);
    assert(attributes[0].spec_size_in_bytes() == 16);
    assert(attributes_size_up_to(attributes, 1) == 16);
    assert(attributes[1].spec_size_in_bytes() == 8);
    assert(attributes_size_up_to(attributes, 2) == 24);
    assert(attributes[2].spec_size_in_bytes() == 2);
    assert(attributes_size_up_to(attributes, 3) == 26);
    assert(attributes[3].spec_size_in_bytes() == 2);
    assert(attributes_size_up_to(attributes, 4) == 28);
}

proof fn lemma_composite_stride()
    ensures
        attributes_size(composite_instance_attributes()) == 124,
{
    let attributes = composite_instance_attributes();
    assert(attributes.len() == 8);
    assert(attributes_size_up_to(attributes, 0) == 0);
    assert(attributes[0].spec_size_in_bytes() == 16);
    assert(attributes_size_up_to(attributes, 1) == 16);
    assert(attributes[1].spec_size_in_bytes() == 16);
    assert(attributes_size_up_to(attributes, 2) == 32);
    assert(attributes[2].spec_size_in_bytes() == 16);
    assert(attributes_size_up_to(attributes, 3) == 48);
    assert(attributes[3].spec_size_in_bytes() == 16);
    assert(attributes_size_up_to(attributes, 4) == 64);
    assert(attributes[4].spec_size_in_bytes() == 16);
    assert(attributes_size_up_to(attributes, 5) == 80);
    assert(attributes[5].spec_size_in_bytes() == 16);
    assert(attributes_size_up_to(attributes, 6) == 96);
    assert(attributes[6].spec_size_in_bytes() == 16);
    assert(attributes_size_up_to(attributes, 7) == 112);
    assert(attributes[7].spec_size_in_bytes() == 12);
    assert(attributes_size_up_to(attributes, 8) == 124);
}

proof fn lemma_clear_stride()
    ensures
        attributes_size(clear_instance_attributes()) == 32,
{
    let attributes = clear_instance_attributes();
    assert(attributes.len() == 2);
    assert(attributes_size_up_to(attributes, 0) == 0);
    assert(attributes[0].spec_size_in_bytes() == 16);
    assert(attributes_size_up_to(attributes, 1) == 16);
    assert(attributes[1].spec_size_in_bytes() == 16);
    assert(attributes_size_up_to(attributes, 2) == 32);
}

/// The layouts of the three kinds of clip mask begin with the same four
/// instance attributes.
pub proof fn lemma_clip_layouts_share_prefix()
    ensures
        common_clip_attributes().is_prefix_of(clip_rect_instance_attributes()),
        common_clip_attributes().is_prefix_of(clip_box_shadow_instance_attributes()),
        common_clip_attributes().is_prefix_of(clip_image_instance_attributes()),
{
}

} // verus!
