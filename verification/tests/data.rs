use vertex_staging::data::{
    bool_false, bool_true, usize_16, yuv_color_space_709, Axis, ClipAndScroll, ClipId,
    GradientKind, GradientTile, ImageRect, PipelineId, YuvColorSpace, YuvKind,
};
use webrender_api::units::{LayoutPoint, LayoutRect, LayoutSize};

#[test]
fn what_a_scene_falls_back_to() {
    assert!(bool_true());
    assert!(!bool_false());
    assert_eq!(usize_16(), 16);
    assert_eq!(yuv_color_space_709(), YuvColorSpace::Rec709);
}

#[test]
fn identifiers() {
    assert_ne!(PipelineId::Root, PipelineId::Other(0, 0));
    assert_eq!(PipelineId::Other(1, 2), PipelineId::Other(1, 2));
    assert_ne!(Axis::X, Axis::Z);
    let single = ClipAndScroll::Single(ClipId::Specific(4));
    let custom =
        ClipAndScroll::Custom { clip: ClipId::RootReferenceFrame, scroll: ClipId::RootScrollNode };
    assert_ne!(single, custom);
}

#[test]
fn geometry_is_carried_as_it_is() {
    let tile = GradientTile { size: LayoutSize::new(4.0, 2.0), spacing: LayoutSize::zero() };
    assert_eq!(tile.size.width, 4.0);
    assert_eq!(tile.spacing, LayoutSize::zero());
    let kind = GradientKind::Linear {
        bounds: LayoutRect::from_size(LayoutSize::new(8.0, 8.0)),
        range: LayoutPoint::new(0.0, 0.0)..LayoutPoint::new(8.0, 0.0),
    };
    match kind {
        GradientKind::Linear { bounds, range } => {
            assert_eq!(bounds.width(), 8.0);
            assert_eq!(range.end.x, 8.0);
        }
        GradientKind::Radial { .. } => panic!("linear"),
    }
    let image = ImageRect { origin: LayoutPoint::new(1.0, 2.0), size: None };
    assert_eq!(image.origin.y, 2.0);
    assert!(image.size.is_none());
    let planes = YuvKind::Nv12 { src_y: String::from("y.png"), src_uv: String::from("uv.png") };
    assert_eq!(planes, YuvKind::Nv12 { src_y: String::from("y.png"), src_uv: String::from("uv.png") });
}
