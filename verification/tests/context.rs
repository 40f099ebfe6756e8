use vertex_staging::batch::{InstanceList, InstanceRange};
use vertex_staging::context::{VertexContext, CONTEXT_CHUNK_SIZE};
use vertex_staging::desc::NamedDescriptor;
use vertex_staging::device::{
    Device, DeviceCommand, IBOId, VAOId, VBOId, VertexUsageHint, VAO,
};
use vertex_staging::pool::InstancePool;

type Blur = [u32; 2];

fn base(device: &mut Device, divisor: u32) -> VAO {
    device.create_vao(NamedDescriptor::PrimInstances, divisor)
}

fn list(data: Vec<Blur>) -> InstanceList<Blur> {
    InstanceList { data, range: None }
}

#[test]
fn a_new_context_shares_the_base_geometry() {
    let mut device = Device::new();
    let base_vao = base(&mut device, 1);
    assert_eq!(
        base_vao,
        VAO {
            id: VAOId(0),
            ibo_id: IBOId(2),
            main_vbo_id: VBOId(3),
            instance_vbo_id: VBOId(1),
            instance_stride: 16,
            instance_divisor: 1,
            owns_vertices_and_indices: true,
        }
    );
    device.take_commands();
    let context: VertexContext<Blur> =
        VertexContext::new(&mut device, NamedDescriptor::Blur, &base_vao, VertexUsageHint::Stream);
    let vao = VAO {
        id: VAOId(4),
        ibo_id: IBOId(2),
        main_vbo_id: VBOId(3),
        instance_vbo_id: VBOId(5),
        instance_stride: 8,
        instance_divisor: 1,
        owns_vertices_and_indices: false,
    };
    assert_eq!(context.vao(), &vao);
    assert_eq!(
        device.commands(),
        &vec![DeviceCommand::CreateVaoWithNewInstances { vao, descriptor: NamedDescriptor::Blur }]
    );
    assert_eq!(context.instance_pool().chunk_size(), CONTEXT_CHUNK_SIZE);
    assert_eq!(CONTEXT_CHUNK_SIZE, 256);
    assert!(!context.instance_pool().duplicate_per_vertex());
    assert_eq!(context.instance_pool().usage_hint(), VertexUsageHint::Stream);
    assert_eq!(device.handle_count(), 6);
}

#[test]
fn a_context_on_indexed_quads_duplicates_instances() {
    let mut device = Device::new();
    let base_vao = base(&mut device, 0);
    let context: VertexContext<Blur> =
        VertexContext::new(&mut device, NamedDescriptor::Blur, &base_vao, VertexUsageHint::Stream);
    assert!(context.instance_pool().duplicate_per_vertex());
    assert_eq!(context.vao().instance_divisor, 0);
}

#[test]
fn bake_instances_stages_each_list_that_is_not_empty() {
    let mut device = Device::new();
    let base_vao = base(&mut device, 1);
    let mut context: VertexContext<Blur> =
        VertexContext::new(&mut device, NamedDescriptor::Blur, &base_vao, VertexUsageHint::Stream);
    let kept = InstanceRange { buffer_index: 9, sub_range: 4..7, epoch: 77 };
    let mut lists = vec![
        list(vec![[1, 1], [2, 2]]),
        InstanceList { data: Vec::new(), range: Some(kept) },
        list(vec![[3, 3]]),
        list(Vec::new()),
    ];
    context.bake_instances(&mut device, &mut lists);
    assert!(lists.iter().all(|list| list.data.is_empty()));
    assert_eq!(
        lists[0].range,
        Some(InstanceRange { buffer_index: 0, sub_range: 0..2, epoch: 0 })
    );
    assert_eq!(
        lists[1].range,
        Some(InstanceRange { buffer_index: 9, sub_range: 4..7, epoch: 77 })
    );
    assert_eq!(
        lists[2].range,
        Some(InstanceRange { buffer_index: 0, sub_range: 2..3, epoch: 0 })
    );
    assert_eq!(lists[3].range, None);
    assert_eq!(context.instance_pool().slots(0), &vec![[1, 1], [2, 2], [3, 3]]);
    assert_eq!(context.instance_pool().used_chunks(), &vec![VBOId(6)]);
}

#[test]
fn bind_switches_the_instance_buffer_once() {
    let mut device = Device::new();
    let base_vao = base(&mut device, 1);
    let mut context: VertexContext<Blur> =
        VertexContext::new(&mut device, NamedDescriptor::Blur, &base_vao, VertexUsageHint::Stream);
    let mut lists = vec![list(vec![[1, 1]; 200]), list(vec![[2, 2]; 200])];
    context.bake_instances(&mut device, &mut lists);
    context.finish_populating_instances(&mut device);
    device.take_commands();
    {
        let mut drawing = context.to_ref();
        assert_eq!(drawing.instance_buffers, &[VBOId(6), VBOId(7)]);
        assert_eq!(*drawing.current_instance_buffer, VBOId(5));
        assert_eq!(drawing.epoch, 0);
        assert!(!drawing.duplicate_per_vertex);
        let epoch = drawing.bind(1, &mut device);
        assert_eq!(epoch, 0);
        assert_eq!(*drawing.current_instance_buffer, VBOId(7));
        drawing.bind(1, &mut device);
    }
    assert_eq!(
        device.commands(),
        &vec![
            DeviceCommand::BindVao { vao_id: VAOId(4) },
            DeviceCommand::SwitchInstanceBuffer {
                buffer: VBOId(7),
                descriptor: NamedDescriptor::Blur,
                instance_divisor: 1,
            },
            DeviceCommand::BindVao { vao_id: VAOId(4) },
            DeviceCommand::BindVbo { buffer: VBOId(7) },
        ]
    );
    // The context remembers what it reads from.
    device.take_commands();
    {
        let mut drawing = context.to_ref();
        assert_eq!(*drawing.current_instance_buffer, VBOId(7));
        drawing.bind_general(&mut device);
        assert_eq!(*drawing.current_instance_buffer, VBOId(5));
    }
    assert_eq!(
        device.commands(),
        &vec![
            DeviceCommand::BindVao { vao_id: VAOId(4) },
            DeviceCommand::SwitchInstanceBuffer {
                buffer: VBOId(5),
                descriptor: NamedDescriptor::Blur,
                instance_divisor: 1,
            },
        ]
    );
}

#[test]
fn bind_returns_the_epoch_of_the_pool() {
    let mut device = Device::new();
    let base_vao = base(&mut device, 0);
    let mut context: VertexContext<Blur> =
        VertexContext::new(&mut device, NamedDescriptor::Blur, &base_vao, VertexUsageHint::Stream);
    let mut lists = vec![list(vec![[1, 1]])];
    context.bake_instances(&mut device, &mut lists);
    context.finish_populating_instances(&mut device);
    context.reset_instance_pool();
    let mut again = vec![list(vec![[2, 2]])];
    context.bake_instances(&mut device, &mut again);
    context.finish_populating_instances(&mut device);
    device.take_commands();
    let stale = lists[0].range.as_ref().unwrap();
    let fresh = again[0].range.as_ref().unwrap();
    let mut drawing = context.to_ref();
    let epoch = drawing.bind(fresh.buffer_index, &mut device);
    assert_eq!(epoch, 1);
    assert_eq!(fresh.epoch, epoch);
    assert_ne!(stale.epoch, epoch);
    assert_eq!(
        device.commands()[1],
        DeviceCommand::SwitchInstanceBuffer {
            buffer: VBOId(6),
            descriptor: NamedDescriptor::Blur,
            instance_divisor: 0,
        }
    );
}

#[test]
fn upload_instance_data_goes_past_the_pool() {
    let mut device = Device::new();
    let base_vao = base(&mut device, 1);
    let mut context: VertexContext<Blur> =
        VertexContext::new(&mut device, NamedDescriptor::Blur, &base_vao, VertexUsageHint::Dynamic);
    device.take_commands();
    let slots = context.to_ref().upload_instance_data(&[[1u32, 1u32], [2, 2]], &mut device);
    assert_eq!(slots, vec![[1, 1], [2, 2]]);
    assert_eq!(
        device.commands(),
        &vec![DeviceCommand::UpdateVboData {
            buffer: VBOId(5),
            count: 2,
            size_in_bytes: 16,
            usage_hint: VertexUsageHint::Dynamic,
        }]
    );
    assert!(context.instance_pool().used_chunks().is_empty());
}

#[test]
fn upload_instance_data_duplicates_on_indexed_quads() {
    let mut device = Device::new();
    let base_vao = base(&mut device, 0);
    let mut context: VertexContext<Blur> =
        VertexContext::new(&mut device, NamedDescriptor::Blur, &base_vao, VertexUsageHint::Dynamic);
    device.take_commands();
    let slots = context.to_ref().upload_instance_data(&[[1u32, 1u32], [2, 2]], &mut device);
    assert_eq!(
        slots,
        vec![[1, 1], [1, 1], [1, 1], [1, 1], [2, 2], [2, 2], [2, 2], [2, 2]]
    );
    assert_eq!(
        device.commands(),
        &vec![
            DeviceCommand::MapVertexBuffer {
                buffer: VBOId(5),
                size_in_bytes: 64,
                usage_hint: VertexUsageHint::Dynamic,
            },
            DeviceCommand::UnmapVertexBuffer,
        ]
    );
}

#[test]
fn deinit_gives_up_pool_and_vertex_array() {
    let mut device = Device::new();
    let base_vao = base(&mut device, 1);
    let mut context: VertexContext<Blur> =
        VertexContext::new(&mut device, NamedDescriptor::Blur, &base_vao, VertexUsageHint::Stream);
    let mut lists = vec![list(vec![[1, 1]])];
    context.bake_instances(&mut device, &mut lists);
    let vao = *context.vao();
    device.take_commands();
    context.deinit(&mut device);
    assert_eq!(
        device.commands(),
        &vec![
            DeviceCommand::BindVbo { buffer: VBOId(6) },
            DeviceCommand::UnmapVertexBuffer,
            DeviceCommand::DeleteVbo { buffer: VBOId(6) },
            DeviceCommand::DeleteVao { vao },
        ]
    );
    // The shared vertices and indices stay; the context's own objects go.
    assert!(device.is_live(0));
    assert!(device.is_live(2));
    assert!(device.is_live(3));
    assert!(!device.is_live(4));
    assert!(!device.is_live(5));
    assert!(!device.is_live(6));
    device.delete_vao(base_vao);
    for handle in 0..device.handle_count() {
        assert!(!device.is_live(handle));
    }
}

#[test]
fn a_context_from_parts_reads_from_its_own_buffer() {
    let mut device = Device::new();
    let base_vao = base(&mut device, 1);
    let pool: InstancePool<Blur> = InstancePool::new(3, VertexUsageHint::Static, false);
    let mut context = VertexContext::from_parts(base_vao, pool, NamedDescriptor::PrimInstances);
    assert_eq!(context.instance_pool().chunk_size(), 3);
    let drawing = context.to_ref();
    assert_eq!(*drawing.current_instance_buffer, VBOId(1));
    assert_eq!(drawing.descriptor, NamedDescriptor::PrimInstances);
    assert_eq!(drawing.usage_hint, VertexUsageHint::Static);
}

#[test]
fn accepts_tells_when_an_upload_is_possible() {
    let mut device = Device::new();
    let base_vao = base(&mut device, 0);
    let mut context: VertexContext<Blur> =
        VertexContext::new(&mut device, NamedDescriptor::Blur, &base_vao, VertexUsageHint::Stream);
    let mut lists = vec![list(vec![[1, 1]])];
    context.bake_instances(&mut device, &mut lists);
    context.finish_populating_instances(&mut device);
    let mut drawing = context.to_ref();
    assert!(drawing.accepts::<Blur>(3));
    // Records of another size than the layout's.
    assert!(!drawing.accepts::<u32>(3));
    // Too many slots to count their bytes.
    assert!(!drawing.accepts::<Blur>(usize::MAX / 4));
    assert!(!drawing.accepts::<Blur>(usize::MAX / 16));
    assert!(drawing.accepts::<Blur>(usize::MAX / 32));
    // Not while the vertex array reads from a buffer of the pool.
    drawing.bind(0, &mut device);
    assert!(!drawing.accepts::<Blur>(3));
    drawing.bind_general(&mut device);
    assert!(drawing.accepts::<Blur>(3));
}
