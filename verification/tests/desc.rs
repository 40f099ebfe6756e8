use vertex_staging::desc::{NamedDescriptor, VertexAttribute, VertexAttributeKind, VertexDescriptor};
use vertex_staging::layouts::{blur, clip_box_shadow, clip_image, clip_rect, gpu_cache_update};

const ALL: [NamedDescriptor; 16] = [
    NamedDescriptor::PrimInstances,
    NamedDescriptor::Blur,
    NamedDescriptor::Line,
    NamedDescriptor::Gradient,
    NamedDescriptor::Border,
    NamedDescriptor::Scale,
    NamedDescriptor::ClipRect,
    NamedDescriptor::ClipBoxShadow,
    NamedDescriptor::ClipImage,
    NamedDescriptor::GpuCacheUpdate,
    NamedDescriptor::Resolve,
    NamedDescriptor::SvgFilter,
    NamedDescriptor::VectorStencil,
    NamedDescriptor::VectorCover,
    NamedDescriptor::Composite,
    NamedDescriptor::Clear,
];

fn names(attributes: &[VertexAttribute]) -> Vec<&'static str> {
    attributes.iter().map(|attribute| attribute.name).collect()
}

fn shape(attributes: &[VertexAttribute]) -> Vec<(u32, VertexAttributeKind)> {
    attributes.iter().map(|attribute| (attribute.count, attribute.kind)).collect()
}

#[test]
fn sizes_of_attributes() {
    assert_eq!(VertexAttributeKind::F32.size_in_bytes(), 4);
    assert_eq!(VertexAttributeKind::I32.size_in_bytes(), 4);
    assert_eq!(VertexAttributeKind::U16.size_in_bytes(), 2);
    assert_eq!(VertexAttributeKind::U16Norm.size_in_bytes(), 2);
    assert_eq!(VertexAttributeKind::U8Norm.size_in_bytes(), 1);
    let attribute = VertexAttribute { name: "aRect", count: 3, kind: VertexAttributeKind::U16 };
    assert_eq!(attribute.size_in_bytes(), 6);
}

#[test]
fn strides_are_the_sums_of_the_attribute_sizes() {
    let strides = [16, 8, 36, 108, 108, 36, 200, 84, 80, 0, 16, 16, 52, 28, 124, 32];
    for (named, stride) in ALL.iter().zip(strides) {
        let descriptor = named.descriptor();
        assert_eq!(descriptor.instance_stride(), stride);
        assert_eq!(named.instance_stride(), stride as usize);
        let sum: u32 = descriptor
            .instance_attributes
            .iter()
            .map(|attribute| attribute.count * attribute.kind.size_in_bytes())
            .sum();
        assert_eq!(sum, stride);
        for attribute in descriptor.instance_attributes.iter().chain(&descriptor.vertex_attributes) {
            assert!(1 <= attribute.count && attribute.count <= 4);
        }
    }
}

#[test]
fn quads_have_a_position_of_two_bytes() {
    for named in ALL {
        let descriptor = named.descriptor();
        if named == NamedDescriptor::GpuCacheUpdate {
            continue;
        }
        assert_eq!(names(&descriptor.vertex_attributes), vec!["aPosition"]);
        assert_eq!(shape(&descriptor.vertex_attributes), vec![(2, VertexAttributeKind::U8Norm)]);
    }
    let update = gpu_cache_update();
    assert_eq!(names(&update.vertex_attributes), vec!["aPosition", "aValue"]);
    assert_eq!(
        shape(&update.vertex_attributes),
        vec![(2, VertexAttributeKind::U16Norm), (4, VertexAttributeKind::F32)]
    );
    assert!(update.instance_attributes.is_empty());
}

#[test]
fn the_blur_layout() {
    let descriptor = blur();
    assert_eq!(
        names(&descriptor.instance_attributes),
        vec!["aBlurRenderTaskAddress", "aBlurSourceTaskAddress", "aBlurDirection"]
    );
    assert_eq!(
        shape(&descriptor.instance_attributes),
        vec![
            (1, VertexAttributeKind::U16),
            (1, VertexAttributeKind::U16),
            (1, VertexAttributeKind::I32)
        ]
    );
}

#[test]
fn the_layouts_by_name() {
    let primitive = NamedDescriptor::PrimInstances.descriptor();
    assert_eq!(names(&primitive.instance_attributes), vec!["aData"]);
    assert_eq!(shape(&primitive.instance_attributes), vec![(4, VertexAttributeKind::I32)]);
    let line = NamedDescriptor::Line.descriptor();
    assert_eq!(
        names(&line.instance_attributes),
        vec!["aTaskRect", "aLocalSize", "aWavyLineThickness", "aStyle", "aAxisSelect"]
    );
    let scale = NamedDescriptor::Scale.descriptor();
    assert_eq!(
        names(&scale.instance_attributes),
        vec!["aScaleTargetRect", "aScaleSourceRect", "aScaleSourceLayer"]
    );
    let cover = NamedDescriptor::VectorCover.descriptor();
    assert_eq!(
        names(&cover.instance_attributes),
        vec!["aTargetRect", "aStencilOrigin", "aSubpixel", "aPad"]
    );
    let clear = NamedDescriptor::Clear.descriptor();
    assert_eq!(names(&clear.instance_attributes), vec!["aRect", "aColor"]);
    let composite = NamedDescriptor::Composite.descriptor();
    assert_eq!(composite.instance_attributes.len(), 8);
    assert_eq!(composite.instance_attributes[7].name, "aTextureLayers");
    assert_eq!(composite.instance_attributes[7].count, 3);
    let filter = NamedDescriptor::SvgFilter.descriptor();
    assert_eq!(filter.instance_attributes.len(), 7);
    assert_eq!(filter.instance_attributes[6].name, "aFilterExtraDataAddress");
}

#[test]
fn clip_layouts_begin_alike() {
    let common = vec!["aClipDeviceArea", "aClipOrigins", "aDevicePixelScale", "aTransformIds"];
    let layouts: [VertexDescriptor; 3] = [clip_rect(), clip_box_shadow(), clip_image()];
    for layout in &layouts {
        assert_eq!(names(&layout.instance_attributes[..4]), common);
        assert_eq!(
            shape(&layout.instance_attributes[..4]),
            shape(&layouts[0].instance_attributes[..4])
        );
    }
    assert_eq!(layouts[0].instance_attributes.len(), 15);
    assert_eq!(layouts[1].instance_attributes.len(), 9);
    assert_eq!(layouts[2].instance_attributes.len(), 7);
}
