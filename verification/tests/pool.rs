use vertex_staging::batch::InstanceRange;
use vertex_staging::device::{Device, DeviceCommand, VBOId, VertexUsageHint};
use vertex_staging::pool::{fill, InstancePool};

fn range(buffer_index: u16, start: usize, end: usize, epoch: u64) -> InstanceRange {
    InstanceRange { buffer_index, sub_range: start..end, epoch }
}

#[test]
fn add_coalesces_into_a_mapped_chunk() {
    let mut device = Device::new();
    let mut pool: InstancePool<u32> = InstancePool::new(8, VertexUsageHint::Stream, false);
    let first = pool.add(&[10, 11, 12], &mut device);
    let second = pool.add(&[13, 14], &mut device);
    assert_eq!(first, range(0, 0, 3, 0));
    assert_eq!(second, range(0, 3, 5, 0));
    assert_eq!(pool.used_chunks().len(), 1);
    assert_eq!(pool.slots(0), &vec![10, 11, 12, 13, 14]);
    assert_eq!(pool.mapped_chunk_count(), 1);
    assert_eq!(
        device.commands(),
        &vec![
            DeviceCommand::CreateVbo { buffer: VBOId(0) },
            DeviceCommand::MapVertexBuffer {
                buffer: VBOId(0),
                size_in_bytes: 32,
                usage_hint: VertexUsageHint::Stream,
            },
        ]
    );
}

#[test]
fn add_starts_a_new_chunk_when_the_batch_does_not_fit() {
    let mut device = Device::new();
    let mut pool: InstancePool<u32> = InstancePool::new(4, VertexUsageHint::Stream, false);
    let first = pool.add(&[10, 11, 12], &mut device);
    let second = pool.add(&[13, 14], &mut device);
    assert_eq!(first, range(0, 0, 3, 0));
    assert_eq!(second, range(1, 0, 2, 0));
    assert_eq!(pool.used_chunks(), &vec![VBOId(0), VBOId(1)]);
    assert_eq!(pool.slots(0), &vec![10, 11, 12]);
    assert_eq!(pool.slots(1), &vec![13, 14]);
    assert_eq!(pool.mapped_chunk_count(), 2);
}

#[test]
fn chunk_size_zero_gives_each_batch_its_own_buffer() {
    let mut device = Device::new();
    let mut pool: InstancePool<u32> = InstancePool::new(0, VertexUsageHint::Dynamic, false);
    let first = pool.add(&[10, 11], &mut device);
    assert_eq!(first, range(0, 0, 2, 0));
    assert_eq!(pool.mapped_chunk_count(), 0);
    assert_eq!(pool.slots(0), &vec![10, 11]);
    assert_eq!(
        device.commands(),
        &vec![
            DeviceCommand::CreateVbo { buffer: VBOId(0) },
            DeviceCommand::UpdateVboData {
                buffer: VBOId(0),
                count: 2,
                size_in_bytes: 8,
                usage_hint: VertexUsageHint::Dynamic,
            },
        ]
    );
    let second = pool.add(&[12], &mut device);
    assert_eq!(second, range(1, 0, 1, 0));
    assert_eq!(pool.used_chunks(), &vec![VBOId(0), VBOId(1)]);
}

#[test]
fn duplication_writes_four_slots_for_each_instance() {
    let mut device = Device::new();
    let mut pool: InstancePool<u32> = InstancePool::new(16, VertexUsageHint::Stream, true);
    let first = pool.add(&[7], &mut device);
    assert_eq!(first, range(0, 0, 1, 0));
    assert_eq!(pool.slots(0), &vec![7, 7, 7, 7]);
    let second = pool.add(&[8, 9], &mut device);
    assert_eq!(second, range(0, 1, 3, 0));
    assert_eq!(pool.slots(0), &vec![7, 7, 7, 7, 8, 8, 8, 8, 9, 9, 9, 9]);
    assert_eq!(pool.used_chunks().len(), 1);
}

#[test]
fn reset_starts_a_new_epoch() {
    let mut device = Device::new();
    let mut pool: InstancePool<u32> = InstancePool::new(8, VertexUsageHint::Stream, false);
    let stale = pool.add(&[1], &mut device);
    pool.finish(&mut device);
    pool.reset();
    let fresh = pool.add(&[2], &mut device);
    assert_eq!(stale.epoch, 0);
    assert_eq!(fresh.epoch, 1);
    assert_ne!(stale.epoch, pool.epoch());
    assert_eq!(fresh.epoch, pool.epoch());
    assert_eq!(pool.slots(0), &vec![2]);
}

#[test]
fn first_mapped_chunk_with_room_takes_the_batch() {
    let mut device = Device::new();
    let mut pool: InstancePool<u32> = InstancePool::new(4, VertexUsageHint::Stream, false);
    pool.add(&[1, 2, 3], &mut device);
    pool.add(&[4, 5], &mut device);
    let third = pool.add(&[6], &mut device);
    assert_eq!(third, range(0, 3, 4, 0));
    assert_eq!(pool.slots(0), &vec![1, 2, 3, 6]);
    assert_eq!(pool.slots(1), &vec![4, 5]);
    let fourth = pool.add(&[7, 8], &mut device);
    assert_eq!(fourth, range(1, 2, 4, 0));
    let fifth = pool.add(&[9], &mut device);
    assert_eq!(fifth, range(2, 0, 1, 0));
    assert_eq!(pool.mapped_chunk_count(), 3);
}

#[test]
fn a_batch_that_fills_a_chunk_is_unmapped_at_once() {
    let mut device = Device::new();
    let mut pool: InstancePool<u32> = InstancePool::new(4, VertexUsageHint::Static, true);
    let first = pool.add(&[5], &mut device);
    assert_eq!(first, range(0, 0, 1, 0));
    assert_eq!(pool.mapped_chunk_count(), 0);
    assert_eq!(
        device.commands(),
        &vec![
            DeviceCommand::CreateVbo { buffer: VBOId(0) },
            DeviceCommand::MapVertexBuffer {
                buffer: VBOId(0),
                size_in_bytes: 16,
                usage_hint: VertexUsageHint::Static,
            },
            DeviceCommand::UnmapVertexBuffer,
        ]
    );
    device.take_commands();
    pool.add(&[6, 7], &mut device);
    assert_eq!(
        device.commands(),
        &vec![
            DeviceCommand::CreateVbo { buffer: VBOId(1) },
            DeviceCommand::MapVertexBuffer {
                buffer: VBOId(1),
                size_in_bytes: 32,
                usage_hint: VertexUsageHint::Static,
            },
            DeviceCommand::UnmapVertexBuffer,
        ]
    );
    assert_eq!(pool.slots(1), &vec![6, 6, 6, 6, 7, 7, 7, 7]);
}

#[test]
fn a_large_batch_is_uploaded_in_one_go() {
    let mut device = Device::new();
    let mut pool: InstancePool<u64> = InstancePool::new(2, VertexUsageHint::Stream, false);
    let first = pool.add(&[1, 2, 3], &mut device);
    assert_eq!(first, range(0, 0, 3, 0));
    assert_eq!(pool.mapped_chunk_count(), 0);
    assert_eq!(
        device.commands()[1],
        DeviceCommand::UpdateVboData {
            buffer: VBOId(0),
            count: 3,
            size_in_bytes: 24,
            usage_hint: VertexUsageHint::Stream,
        }
    );
}

#[test]
fn an_empty_batch_gets_an_empty_range() {
    let mut device = Device::new();
    let mut pool: InstancePool<u32> = InstancePool::new(4, VertexUsageHint::Stream, false);
    let first = pool.add(&[], &mut device);
    assert_eq!(first, range(0, 0, 0, 0));
    assert_eq!(pool.used_chunks().len(), 1);
    assert_eq!(pool.slots(0), &Vec::<u32>::new());
    let second = pool.add(&[], &mut device);
    assert_eq!(second, range(0, 0, 0, 0));
    assert_eq!(pool.used_chunks().len(), 1);
}

#[test]
fn finish_binds_and_unmaps_each_mapped_chunk() {
    let mut device = Device::new();
    let mut pool: InstancePool<u32> = InstancePool::new(4, VertexUsageHint::Stream, false);
    pool.add(&[1, 2, 3], &mut device);
    pool.add(&[4, 5], &mut device);
    device.take_commands();
    pool.finish(&mut device);
    assert_eq!(pool.mapped_chunk_count(), 0);
    assert_eq!(
        device.commands(),
        &vec![
            DeviceCommand::BindVbo { buffer: VBOId(0) },
            DeviceCommand::UnmapVertexBuffer,
            DeviceCommand::BindVbo { buffer: VBOId(1) },
            DeviceCommand::UnmapVertexBuffer,
        ]
    );
    assert_eq!(pool.slots(0), &vec![1, 2, 3]);
    assert_eq!(pool.slots(1), &vec![4, 5]);
}

#[test]
fn finish_without_mapped_chunks_does_nothing() {
    let mut device = Device::new();
    let mut pool: InstancePool<u32> = InstancePool::new(0, VertexUsageHint::Stream, false);
    pool.add(&[1, 2, 3], &mut device);
    device.take_commands();
    pool.finish(&mut device);
    assert!(device.commands().is_empty());
    assert_eq!(pool.used_chunks(), &vec![VBOId(0)]);
    assert_eq!(pool.slots(0), &vec![1, 2, 3]);
    pool.finish(&mut device);
    assert!(device.commands().is_empty());
}

#[test]
fn reset_moves_used_buffers_to_the_ready_ones() {
    let mut device = Device::new();
    let mut pool: InstancePool<u32> = InstancePool::new(2, VertexUsageHint::Stream, false);
    pool.add(&[1, 2, 3], &mut device);
    pool.add(&[4, 5, 6], &mut device);
    pool.finish(&mut device);
    pool.reset();
    assert!(pool.used_chunks().is_empty());
    assert_eq!(pool.ready_chunks(), &vec![VBOId(0), VBOId(1)]);
    assert_eq!(pool.epoch(), 1);
    pool.add(&[7, 8, 9], &mut device);
    pool.reset();
    assert_eq!(pool.ready_chunks(), &vec![VBOId(0), VBOId(1)]);
    assert_eq!(pool.epoch(), 2);
}

#[test]
fn reset_twice_changes_only_the_epoch() {
    let mut device = Device::new();
    let mut pool: InstancePool<u32> = InstancePool::new(0, VertexUsageHint::Stream, false);
    pool.add(&[1], &mut device);
    pool.reset();
    let ready = pool.ready_chunks().clone();
    pool.reset();
    assert_eq!(pool.ready_chunks(), &ready);
    assert!(pool.used_chunks().is_empty());
    assert_eq!(pool.epoch(), 2);
}

#[test]
fn a_new_chunk_takes_the_buffer_put_aside_last() {
    let mut device = Device::new();
    let mut pool: InstancePool<u32> = InstancePool::new(0, VertexUsageHint::Stream, false);
    pool.add(&[1], &mut device);
    pool.add(&[2], &mut device);
    pool.reset();
    device.take_commands();
    let first = pool.add(&[3], &mut device);
    assert_eq!(first, range(0, 0, 1, 1));
    assert_eq!(pool.used_chunks(), &vec![VBOId(1)]);
    assert_eq!(pool.ready_chunks(), &vec![VBOId(0)]);
    assert_eq!(
        device.commands(),
        &vec![DeviceCommand::UpdateVboData {
            buffer: VBOId(1),
            count: 1,
            size_in_bytes: 4,
            usage_hint: VertexUsageHint::Stream,
        }]
    );
    pool.add(&[4], &mut device);
    pool.add(&[5], &mut device);
    assert_eq!(pool.used_chunks(), &vec![VBOId(1), VBOId(0), VBOId(2)]);
}

#[test]
fn deinit_destroys_every_buffer() {
    let mut device = Device::new();
    let mut pool: InstancePool<u32> = InstancePool::new(4, VertexUsageHint::Stream, false);
    pool.add(&[1, 2, 3, 4, 5], &mut device);
    pool.finish(&mut device);
    pool.reset();
    pool.add(&[1], &mut device);
    pool.add(&[2, 3, 4, 5, 6], &mut device);
    assert_eq!(pool.used_chunks(), &vec![VBOId(0), VBOId(1)]);
    device.take_commands();
    pool.deinit(&mut device);
    assert_eq!(
        device.commands(),
        &vec![
            DeviceCommand::BindVbo { buffer: VBOId(0) },
            DeviceCommand::UnmapVertexBuffer,
            DeviceCommand::DeleteVbo { buffer: VBOId(0) },
            DeviceCommand::DeleteVbo { buffer: VBOId(1) },
        ]
    );
    assert!(!device.is_live(0));
    assert!(!device.is_live(1));
}

#[test]
fn slots_in_buffer_order_are_the_batches_in_order() {
    let mut device = Device::new();
    let mut pool: InstancePool<u32> = InstancePool::new(4, VertexUsageHint::Stream, true);
    let batches: Vec<Vec<u32>> = vec![vec![1], vec![2, 3], vec![], vec![4]];
    let mut expected: Vec<u32> = Vec::new();
    for batch in &batches {
        pool.add(batch, &mut device);
        for instance in batch {
            expected.extend([*instance; 4]);
        }
    }
    let mut written: Vec<u32> = Vec::new();
    for index in 0..pool.used_chunks().len() {
        written.extend(pool.slots(index as u16));
    }
    assert_eq!(written, expected);
}

#[test]
fn ranges_stay_good_while_more_is_added() {
    let mut device = Device::new();
    let mut pool: InstancePool<u32> = InstancePool::new(8, VertexUsageHint::Stream, false);
    let first = pool.add(&[1, 2], &mut device);
    let second = pool.add(&[3, 4, 5], &mut device);
    pool.add(&[6, 7, 8, 9], &mut device);
    pool.add(&[10], &mut device);
    pool.finish(&mut device);
    assert_eq!(&pool.slots(first.buffer_index)[first.sub_range.clone()], &[1, 2]);
    assert_eq!(&pool.slots(second.buffer_index)[second.sub_range.clone()], &[3, 4, 5]);
    assert!((first.buffer_index as usize) < pool.used_chunks().len());
}

#[test]
fn fill_appends_the_slots_of_the_instances() {
    let mut slots: Vec<u8> = vec![9];
    fill(&mut slots, &[1, 2], true);
    assert_eq!(slots, vec![9, 1, 1, 1, 1, 2, 2, 2, 2]);
    fill(&mut slots, &[3], false);
    assert_eq!(slots, vec![9, 1, 1, 1, 1, 2, 2, 2, 2, 3]);
}

#[test]
fn a_new_pool_is_empty() {
    let pool: InstancePool<u32> = InstancePool::new(12, VertexUsageHint::Dynamic, true);
    assert_eq!(pool.chunk_size(), 12);
    assert_eq!(pool.usage_hint(), VertexUsageHint::Dynamic);
    assert!(pool.duplicate_per_vertex());
    assert_eq!(pool.epoch(), 0);
    assert!(pool.used_chunks().is_empty());
    assert!(pool.ready_chunks().is_empty());
    assert_eq!(pool.mapped_chunk_count(), 0);
}

#[test]
fn can_add_tells_when_add_is_possible() {
    let mut device = Device::new();
    let mut pool: InstancePool<u32> = InstancePool::new(4, VertexUsageHint::Stream, true);
    assert!(pool.can_add(0));
    assert!(pool.can_add(1));
    assert!(pool.can_add(1000));
    // Four slots an instance cannot be counted.
    assert!(!pool.can_add(usize::MAX / 4 + 1));
    // The slots can be counted, their bytes cannot.
    assert!(!pool.can_add(usize::MAX / 8));
    pool.add(&[1], &mut device);
    assert!(pool.can_add(usize::MAX / 16));
    assert!(!pool.can_add(usize::MAX / 8));
    let unmapped: InstancePool<u32> = InstancePool::new(0, VertexUsageHint::Stream, false);
    // Uploaded in one go: no mapping whose bytes would have to be counted.
    assert!(unmapped.can_add(usize::MAX));
}

#[test]
fn a_pool_has_room_for_sixty_five_thousand_buffers() {
    let mut device = Device::new();
    let mut pool: InstancePool<u8> = InstancePool::new(0, VertexUsageHint::Stream, false);
    for _ in 0..65535 {
        assert!(pool.can_add(1));
        pool.add(&[1], &mut device);
    }
    assert!(pool.can_add(1));
    let last = pool.add(&[2], &mut device);
    assert_eq!(last.buffer_index, 65535);
    assert_eq!(pool.used_chunks().len(), 65536);
    assert!(!pool.can_add(1));
    assert!(!pool.can_add(0));
}

#[test]
fn a_pool_knows_the_device_it_got_its_buffers_from() {
    let mut device = Device::new();
    let mut pool: InstancePool<u32> = InstancePool::new(0, VertexUsageHint::Stream, false);
    assert!(pool.is_known_to(&device));
    pool.add(&[1], &mut device);
    pool.add(&[2], &mut device);
    assert!(pool.is_known_to(&device));
    let other = Device::new();
    assert!(!pool.is_known_to(&other));
    pool.reset();
    assert!(!pool.is_known_to(&other));
    device.create_vbo_raw();
    assert!(pool.is_known_to(&device));
}
