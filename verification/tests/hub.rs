use std::mem::size_of;

use vertex_staging::batch::InstanceList;
use vertex_staging::desc::NamedDescriptor;
use vertex_staging::device::{Device, DeviceCommand, VAOId, VBOId, VertexUsageHint};
use vertex_staging::hub::{
    quad_indices, quad_vertices, BlurInstance, BorderInstance, ClearInstance,
    ClipMaskInstanceBoxShadow, ClipMaskInstanceImage, ClipMaskInstanceRect, CompositeInstance,
    GradientJob, InstanceWords, LineDecorationJob, PrimitiveInstanceData, ScalingInstance,
    SvgFilterInstance, VertexArrayKind, VertexContextHub, MAX_INDEXED_QUADS, QUAD_INDICES,
    QUAD_VERTICES,
};

const SERVED: [VertexArrayKind; 13] = [
    VertexArrayKind::Primitive,
    VertexArrayKind::Blur,
    VertexArrayKind::ClipImage,
    VertexArrayKind::ClipRect,
    VertexArrayKind::ClipBoxShadow,
    VertexArrayKind::Border,
    VertexArrayKind::Scale,
    VertexArrayKind::LineDecoration,
    VertexArrayKind::Gradient,
    VertexArrayKind::Resolve,
    VertexArrayKind::SvgFilter,
    VertexArrayKind::Composite,
    VertexArrayKind::Clear,
];

#[test]
fn quad_geometry() {
    assert_eq!(QUAD_INDICES, [0, 1, 2, 2, 1, 3]);
    assert_eq!(QUAD_VERTICES, [[0, 0], [255, 0], [0, 255], [255, 255]]);
    assert_eq!(quad_indices(0), Vec::<u16>::new());
    assert_eq!(quad_indices(1), vec![0, 1, 2, 2, 1, 3]);
    assert_eq!(quad_indices(3), vec![0, 1, 2, 2, 1, 3, 4, 5, 6, 6, 5, 7, 8, 9, 10, 10, 9, 11]);
    assert_eq!(
        quad_vertices(2),
        vec![[0, 0], [255, 0], [0, 255], [255, 255], [0, 0], [255, 0], [0, 255], [255, 255]]
    );
    let most = quad_indices(MAX_INDEXED_QUADS);
    assert_eq!(most.len(), 6 * 16384);
    assert_eq!(most[most.len() - 1], 65535);
    assert_eq!(most[most.len() - 6], 65532);
}

#[test]
fn a_hub_with_hardware_instancing() {
    let mut device = Device::new();
    let mut hub = VertexContextHub::new(&mut device, None, VertexUsageHint::Stream);
    assert_eq!(device.handle_count(), 28);
    let commands = device.commands();
    assert_eq!(commands.len(), 16);
    assert_eq!(
        commands[0],
        DeviceCommand::CreateVao { vao: *hub.prim.vao(), descriptor: NamedDescriptor::PrimInstances }
    );
    assert_eq!(commands[1], DeviceCommand::BindVao { vao_id: VAOId(0) });
    assert_eq!(
        commands[2],
        DeviceCommand::UpdateVaoIndices {
            vao_id: VAOId(0),
            indices: vec![0, 1, 2, 2, 1, 3],
            usage_hint: VertexUsageHint::Static,
        }
    );
    assert_eq!(
        commands[3],
        DeviceCommand::UpdateVaoMainVertices {
            vao_id: VAOId(0),
            vertices: vec![[0, 0], [255, 0], [0, 255], [255, 255]],
            usage_hint: VertexUsageHint::Static,
        }
    );
    let order = [
        (*hub.blur.vao(), NamedDescriptor::Blur),
        (*hub.clip_rect.vao(), NamedDescriptor::ClipRect),
        (*hub.clip_box_shadow.vao(), NamedDescriptor::ClipBoxShadow),
        (*hub.clip_image.vao(), NamedDescriptor::ClipImage),
        (*hub.border.vao(), NamedDescriptor::Border),
        (*hub.scale.vao(), NamedDescriptor::Scale),
        (*hub.line.vao(), NamedDescriptor::Line),
        (*hub.gradient.vao(), NamedDescriptor::Gradient),
        (*hub.resolve.vao(), NamedDescriptor::Resolve),
        (*hub.svg_filter.vao(), NamedDescriptor::SvgFilter),
        (*hub.composite.vao(), NamedDescriptor::Composite),
        (*hub.clear.vao(), NamedDescriptor::Clear),
    ];
    for (k, (vao, descriptor)) in order.iter().enumerate() {
        assert_eq!(
            commands[4 + k],
            DeviceCommand::CreateVaoWithNewInstances { vao: *vao, descriptor: *descriptor }
        );
        assert_eq!(vao.id, VAOId(4 + 2 * k));
        assert_eq!(vao.instance_vbo_id, VBOId(5 + 2 * k));
        assert_eq!(vao.instance_stride, descriptor.instance_stride());
        assert_eq!(vao.instance_divisor, 1);
        assert_eq!(vao.main_vbo_id, hub.prim.vao().main_vbo_id);
        assert_eq!(vao.ibo_id, hub.prim.vao().ibo_id);
        assert!(!vao.owns_vertices_and_indices);
    }
    assert_eq!(hub.prim.vao().instance_divisor, 1);
    assert_eq!(hub.prim.instance_pool().chunk_size(), 0);
    assert!(!hub.prim.instance_pool().duplicate_per_vertex());
    assert_eq!(hub.blur.instance_pool().chunk_size(), 256);
    assert!(!hub.blur.instance_pool().duplicate_per_vertex());
    for kind in SERVED {
        let context = hub.get(kind);
        assert!(!context.duplicate_per_vertex);
        assert_eq!(context.usage_hint, VertexUsageHint::Stream);
        assert_eq!(context.epoch, 0);
        assert!(context.instance_buffers.is_empty());
        assert_eq!(*context.current_instance_buffer, context.vao.instance_vbo_id);
    }
}

#[test]
fn a_hub_with_indexed_quads() {
    let mut device = Device::new();
    let mut hub = VertexContextHub::new(&mut device, Some(5), VertexUsageHint::Dynamic);
    let commands = device.commands();
    assert_eq!(
        commands[2],
        DeviceCommand::UpdateVaoIndices {
            vao_id: VAOId(0),
            indices: quad_indices(5),
            usage_hint: VertexUsageHint::Static,
        }
    );
    assert_eq!(
        commands[3],
        DeviceCommand::UpdateVaoMainVertices {
            vao_id: VAOId(0),
            vertices: quad_vertices(5),
            usage_hint: VertexUsageHint::Static,
        }
    );
    assert_eq!(hub.prim.vao().instance_divisor, 0);
    assert_eq!(hub.prim.instance_pool().chunk_size(), 2);
    assert!(hub.prim.instance_pool().duplicate_per_vertex());
    assert_eq!(hub.clear.instance_pool().chunk_size(), 256);
    assert!(hub.clear.instance_pool().duplicate_per_vertex());
    assert_eq!(hub.clear.vao().instance_divisor, 0);
    for kind in SERVED {
        assert!(hub.get(kind).duplicate_per_vertex);
    }
}

#[test]
fn get_hands_out_the_context_of_the_kind() {
    let mut device = Device::new();
    let mut hub = VertexContextHub::new(&mut device, None, VertexUsageHint::Stream);
    let expected = [
        (VertexArrayKind::Primitive, NamedDescriptor::PrimInstances, *hub.prim.vao()),
        (VertexArrayKind::Blur, NamedDescriptor::Blur, *hub.blur.vao()),
        (VertexArrayKind::ClipImage, NamedDescriptor::ClipImage, *hub.clip_image.vao()),
        (VertexArrayKind::ClipRect, NamedDescriptor::ClipRect, *hub.clip_rect.vao()),
        (VertexArrayKind::ClipBoxShadow, NamedDescriptor::ClipBoxShadow, *hub.clip_box_shadow.vao()),
        (VertexArrayKind::Border, NamedDescriptor::Border, *hub.border.vao()),
        (VertexArrayKind::Scale, NamedDescriptor::Scale, *hub.scale.vao()),
        (VertexArrayKind::LineDecoration, NamedDescriptor::Line, *hub.line.vao()),
        (VertexArrayKind::Gradient, NamedDescriptor::Gradient, *hub.gradient.vao()),
        (VertexArrayKind::Resolve, NamedDescriptor::Resolve, *hub.resolve.vao()),
        (VertexArrayKind::SvgFilter, NamedDescriptor::SvgFilter, *hub.svg_filter.vao()),
        (VertexArrayKind::Composite, NamedDescriptor::Composite, *hub.composite.vao()),
        (VertexArrayKind::Clear, NamedDescriptor::Clear, *hub.clear.vao()),
    ];
    for (kind, descriptor, vao) in expected {
        let context = hub.get(kind);
        assert_eq!(context.descriptor, descriptor);
        assert_eq!(*context.vao, vao);
    }
}

#[test]
fn a_frame_of_the_hub() {
    let mut device = Device::new();
    let mut hub = VertexContextHub::new(&mut device, None, VertexUsageHint::Stream);
    hub.reset_instance_pools();
    let mut blurs = vec![InstanceList { data: vec![InstanceWords { words: [1, 2] }; 3], range: None }];
    let mut clears =
        vec![InstanceList { data: vec![InstanceWords { words: [7; 8] }; 2], range: None }];
    hub.blur.bake_instances(&mut device, &mut blurs);
    hub.clear.bake_instances(&mut device, &mut clears);
    assert_eq!(hub.blur.instance_pool().mapped_chunk_count(), 1);
    device.take_commands();
    hub.finish_populating_instances(&mut device);
    assert_eq!(
        device.commands(),
        &vec![
            DeviceCommand::BindVbo { buffer: VBOId(28) },
            DeviceCommand::UnmapVertexBuffer,
            DeviceCommand::BindVbo { buffer: VBOId(29) },
            DeviceCommand::UnmapVertexBuffer,
        ]
    );
    assert_eq!(hub.blur.instance_pool().mapped_chunk_count(), 0);
    device.take_commands();
    let range = blurs[0].range.as_ref().unwrap();
    assert_eq!(range.epoch, 1);
    {
        let mut context = hub.get(VertexArrayKind::Blur);
        let epoch = context.bind(range.buffer_index, &mut device);
        assert_eq!(epoch, range.epoch);
    }
    assert_eq!(
        device.commands(),
        &vec![
            DeviceCommand::BindVao { vao_id: VAOId(4) },
            DeviceCommand::SwitchInstanceBuffer {
                buffer: VBOId(28),
                descriptor: NamedDescriptor::Blur,
                instance_divisor: 1,
            },
        ]
    );
    assert_eq!(*hub.get(VertexArrayKind::Blur).current_instance_buffer, VBOId(28));
    assert_eq!(*hub.get(VertexArrayKind::Clear).current_instance_buffer, VBOId(27));

    hub.reset_instance_pools();
    assert!(hub.blur.instance_pool().used_chunks().is_empty());
    assert_eq!(hub.blur.instance_pool().ready_chunks(), &vec![VBOId(28)]);
    assert_eq!(hub.blur.instance_pool().epoch(), 2);
    assert_eq!(hub.prim.instance_pool().epoch(), 2);
    assert_eq!(hub.get(VertexArrayKind::Blur).epoch, 2);
    assert_ne!(hub.get(VertexArrayKind::Blur).epoch, range.epoch);
}

#[test]
fn deinit_leaves_nothing_alive() {
    let mut device = Device::new();
    let mut hub = VertexContextHub::new(&mut device, Some(4), VertexUsageHint::Stream);
    let mut prims = vec![InstanceList { data: vec![InstanceWords { words: [1; 4] }], range: None }];
    hub.prim.bake_instances(&mut device, &mut prims);
    assert_eq!(hub.prim.instance_pool().slots(0).len(), 4);
    let handles = device.handle_count();
    assert_eq!(handles, 29);
    device.take_commands();
    hub.deinit(&mut device);
    for handle in 0..handles {
        assert!(!device.is_live(handle));
    }
    let commands = device.commands();
    assert_eq!(commands[0], DeviceCommand::DeleteVbo { buffer: VBOId(28) });
    match &commands[1] {
        DeviceCommand::DeleteVao { vao } => {
            assert_eq!(vao.id, VAOId(0));
            assert!(vao.owns_vertices_and_indices);
        }
        other => panic!("{:?}", other),
    }
    assert_eq!(commands.len(), 14);
}

#[test]
fn records_are_as_large_as_the_layouts_say() {
    assert_eq!(size_of::<PrimitiveInstanceData>(), NamedDescriptor::PrimInstances.instance_stride());
    assert_eq!(size_of::<BlurInstance>(), NamedDescriptor::Blur.instance_stride());
    assert_eq!(size_of::<ClipMaskInstanceRect>(), NamedDescriptor::ClipRect.instance_stride());
    assert_eq!(
        size_of::<ClipMaskInstanceBoxShadow>(),
        NamedDescriptor::ClipBoxShadow.instance_stride()
    );
    assert_eq!(size_of::<ClipMaskInstanceImage>(), NamedDescriptor::ClipImage.instance_stride());
    assert_eq!(size_of::<BorderInstance>(), NamedDescriptor::Border.instance_stride());
    assert_eq!(size_of::<LineDecorationJob>(), NamedDescriptor::Line.instance_stride());
    assert_eq!(size_of::<ScalingInstance>(), NamedDescriptor::Scale.instance_stride());
    assert_eq!(size_of::<GradientJob>(), NamedDescriptor::Gradient.instance_stride());
    assert_eq!(size_of::<SvgFilterInstance>(), NamedDescriptor::SvgFilter.instance_stride());
    assert_eq!(size_of::<CompositeInstance>(), NamedDescriptor::Composite.instance_stride());
    assert_eq!(size_of::<ClearInstance>(), NamedDescriptor::Clear.instance_stride());
}

#[test]
fn a_context_of_the_hub_takes_uploads_of_its_records() {
    let mut device = Device::new();
    let mut hub = VertexContextHub::new(&mut device, Some(2), VertexUsageHint::Stream);
    device.take_commands();
    let mut context = hub.get(VertexArrayKind::Blur);
    assert!(context.accepts::<BlurInstance>(2));
    assert!(!context.accepts::<ClearInstance>(2));
    let slots = context.upload_instance_data(&[InstanceWords { words: [5u32, 6u32] }], &mut device);
    assert_eq!(slots, vec![InstanceWords { words: [5, 6] }; 4]);
    assert_eq!(
        device.commands(),
        &vec![
            DeviceCommand::MapVertexBuffer {
                buffer: VBOId(5),
                size_in_bytes: 32,
                usage_hint: VertexUsageHint::Stream,
            },
            DeviceCommand::UnmapVertexBuffer,
        ]
    );
}
