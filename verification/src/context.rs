//! Vertex array contexts: a vertex array object, the layout it was built
//! for, and the instance pool that feeds it.

use vstd::prelude::*;
use crate::batch::{InstanceBufferIndex, InstanceList};
use crate::desc::NamedDescriptor;
use crate::device::{
    new_vao_sharing, Device, DeviceCommand, DeviceView, VBOId, VertexUsageHint, VAO,
};
use crate::pool::{device_after_deleting, fill, InstancePool};
use crate::pool_model::{expand, PoolView, Staging};
use crate::units::VERTICES_PER_INSTANCE;

verus! {

/// Number of slots that the chunks of a context's pool are mapped with.
pub const CONTEXT_CHUNK_SIZE: usize = 0x100;

/// The divisor that instance attributes are read with: zero, that is once
/// per vertex, where instances are duplicated per vertex, else one.
pub open spec fn spec_instance_divisor(duplicate_per_vertex: bool) -> u32 {
    if duplicate_per_vertex {
        0
    } else {
        1
    }
}

/// The instance data of the lists, list after list.
pub open spec fn list_data<T>(lists: Seq<InstanceList<T>>) -> Seq<Seq<T>> {
    Seq::new(lists.len(), |i: int| lists[i].data@)
}

/// What a context is when drawing, whatever the type of its instances.
pub struct ContextSummary {
    pub vao: VAO,
    pub descriptor: NamedDescriptor,
    pub current_instance_buffer: VBOId,
    pub instance_buffers: Seq<VBOId>,
    pub duplicate_per_vertex: bool,
    pub usage_hint: VertexUsageHint,
    pub epoch: nat,
    pub mapped: nat,
}

/// A vertex array object with the instance pool that feeds it.
pub struct VertexContext<T> {
    vao: VAO,
    instance_pool: InstancePool<T>,
    current_instance_buffer: VBOId,
    descriptor: NamedDescriptor,
}

/// A context that is ready to draw: the buffers that its pool has staged in
/// this frame, and the buffer that its vertex array object reads instances
/// from at present.
pub struct VertexContextRef<'a> {
    pub vao: &'a VAO,
    pub instance_buffers: &'a [VBOId],
    pub current_instance_buffer: &'a mut VBOId,
    pub descriptor: NamedDescriptor,
    pub duplicate_per_vertex: bool,
    pub usage_hint: VertexUsageHint,
    pub epoch: u64,
}

impl<'a> VertexContextRef<'a> {
    /// Whether this is the context that `summary` describes.
    pub open spec fn shows(&self, summary: ContextSummary) -> bool {
        &&& *self.vao == summary.vao
        &&& self.instance_buffers@ == summary.instance_buffers
        &&& *self.current_instance_buffer == summary.current_instance_buffer
        &&& self.descriptor == summary.descriptor
        &&& self.duplicate_per_vertex == summary.duplicate_per_vertex
        &&& self.usage_hint == summary.usage_hint
        &&& self.epoch == summary.epoch
    }

    /// The commands that make `buffer` the instance buffer of the vertex
    /// array object: the object is bound; then the buffer is switched to, or
    /// only bound again where the object reads from it already.
    pub open spec fn bind_commands(&self, buffer: VBOId) -> Seq<DeviceCommand> {
        seq![
            DeviceCommand::BindVao { vao_id: self.vao.id },
            if *self.current_instance_buffer != buffer {
                DeviceCommand::SwitchInstanceBuffer {
                    buffer,
                    descriptor: self.descriptor,
                    instance_divisor: spec_instance_divisor(self.duplicate_per_vertex),
                }
            } else {
                DeviceCommand::BindVbo { buffer }
            },
        ]
    }

    /// Whether `later` is this context with `buffer` as the instance buffer
    /// read at present.
    pub open spec fn reads_from(&self, later: &Self, buffer: VBOId) -> bool {
        &&& *later.current_instance_buffer == buffer
        &&& later.vao == self.vao
        &&& later.instance_buffers == self.instance_buffers
        &&& later.descriptor == self.descriptor
        &&& later.duplicate_per_vertex == self.duplicate_per_vertex
        &&& later.usage_hint == self.usage_hint
        &&& later.epoch == self.epoch
    }

    fn bind_impl(&mut self, buffer: VBOId, device: &mut Device)
        ensures
            old(self).reads_from(final(self), buffer),
            final(device)@.commands == old(device)@.commands + old(self).bind_commands(buffer),
            final(device)@.live == old(device)@.live,
    {
        device.bind_vao(self.vao);
        if *self.current_instance_buffer != buffer {
            *self.current_instance_buffer = buffer;
            let divisor: u32 = if self.duplicate_per_vertex {
                0
            } else {
                1
            };
            device.switch_instance_buffer(buffer, self.descriptor, divisor);
        } else {
            device.bind_vbo(buffer);
        }
        proof {
            assert(device@.commands =~= old(device)@.commands + old(self).bind_commands(buffer));
        }
    }

    /// Makes the buffer staged at `index` the instance buffer of the vertex
    /// array object, and returns the epoch of the pool, against which the
    /// epoch of a range can be held.
    pub fn bind(&mut self, index: InstanceBufferIndex, device: &mut Device) -> (epoch: u64)
        requires
            index < old(self).instance_buffers@.len(),
        ensures
            epoch == old(self).epoch,
            old(self).reads_from(final(self), old(self).instance_buffers@[index as int]),
            final(device)@.commands == old(device)@.commands + old(self).bind_commands(
                old(self).instance_buffers@[index as int],
            ),
            final(device)@.live == old(device)@.live,
    {
        let buffer: VBOId = self.instance_buffers[index as usize];
        self.bind_impl(buffer, device);
        self.epoch
    }

    /// Makes the vertex array object's own instance buffer the one it reads
    /// from.
    pub fn bind_general(&mut self, device: &mut Device)
        ensures
            old(self).reads_from(final(self), old(self).vao.instance_vbo_id),
            final(device)@.commands == old(device)@.commands + old(self).bind_commands(
                old(self).vao.instance_vbo_id,
            ),
            final(device)@.live == old(device)@.live,
    {
        let buffer: VBOId = self.vao.instance_vbo_id;
        self.bind_impl(buffer, device);
    }

    /// Whether `upload_instance_data` may be called with `count` instances of
    /// type `T`: the vertex array object reads from its own instance buffer,
    /// in records of the size of `T`, and the size in bytes of the slots can
    /// be counted.
    pub open spec fn can_upload<T>(&self, count: nat) -> bool {
        &&& *self.current_instance_buffer == self.vao.instance_vbo_id
        &&& self.vao.instance_stride == vstd::layout::size_of::<T>()
        &&& self.duplicate_per_vertex ==> count * 4 <= usize::MAX && count * 4
            * vstd::layout::size_of::<T>() <= usize::MAX
    }

    /// Whether `upload_instance_data` may be called with `count` instances of
    /// type `T`.
    pub fn accepts<T>(&self, count: usize) -> (possible: bool)
        ensures
            possible == self.can_upload::<T>(count as nat),
    {
        if *self.current_instance_buffer != self.vao.instance_vbo_id {
            return false;
        }
        if self.vao.instance_stride != core::mem::size_of::<T>() {
            return false;
        }
        if !self.duplicate_per_vertex {
            return true;
        }
        match count.checked_mul(VERTICES_PER_INSTANCE) {
            Some(slots) => slots.checked_mul(core::mem::size_of::<T>()).is_some(),
            None => false,
        }
    }

    /// The commands of `upload_instance_data` for `count` instances of
    /// `record_size` bytes: with instances duplicated per vertex, the buffer
    /// is mapped with room for four slots an instance and unmapped; else the
    /// instances are uploaded in one go.
    pub open spec fn upload_commands(&self, count: nat, record_size: nat) -> Seq<DeviceCommand> {
        if self.duplicate_per_vertex {
            seq![
                DeviceCommand::MapVertexBuffer {
                    buffer: self.vao.instance_vbo_id,
                    size_in_bytes: (count * 4 * record_size) as usize,
                    usage_hint: self.usage_hint,
                },
                DeviceCommand::UnmapVertexBuffer,
            ]
        } else {
            seq![
                DeviceCommand::UpdateVboData {
                    buffer: self.vao.instance_vbo_id,
                    count: count as usize,
                    size_in_bytes: (count * record_size) as usize,
                    usage_hint: self.usage_hint,
                },
            ]
        }
    }

    /// Uploads `instances` straight into the vertex array object's own
    /// instance buffer, past the pool, and returns the slots written: each
    /// instance four times where instances are duplicated per vertex, else
    /// the instances themselves.
    pub fn upload_instance_data<T: Copy>(&mut self, instances: &[T], device: &mut Device) -> (slots:
        Vec<T>)
        requires
            old(self).can_upload::<T>(instances@.len()),
        ensures
            slots@ == expand(instances@, old(self).duplicate_per_vertex),
            old(self).reads_from(final(self), old(self).vao.instance_vbo_id),
            final(device)@.commands == old(device)@.commands + old(self).upload_commands(
                instances@.len(),
                vstd::layout::size_of::<T>(),
            ),
            final(device)@.live == old(device)@.live,
    {
        let mut slots: Vec<T> = Vec::new();
        if self.duplicate_per_vertex {
            device.initialize_mapped_vertex_buffer(
                self.vao.instance_vbo_id,
                instances.len() * VERTICES_PER_INSTANCE * core::mem::size_of::<T>(),
                self.usage_hint,
            );
            fill(&mut slots, instances, self.duplicate_per_vertex);
            device.unmap_vertex_buffer();
        } else {
            device.update_vbo_data(self.vao.instance_vbo_id, instances, self.usage_hint);
            fill(&mut slots, instances, self.duplicate_per_vertex);
        }
        proof {
            assert(slots@ =~= expand(instances@, self.duplicate_per_vertex));
            assert(device@.commands =~= old(device)@.commands + old(self).upload_commands(
                instances@.len(),
                vstd::layout::size_of::<T>(),
            ));
        }
        slots
    }
}

impl<T: Copy> VertexContext<T> {
    /// The vertex array object of the context.
    pub closed spec fn spec_vao(&self) -> VAO {
        self.vao
    }

    /// The instance pool of the context.
    pub closed spec fn pool(&self) -> InstancePool<T> {
        self.instance_pool
    }

    /// The buffer that the vertex array object reads instances from at
    /// present.
    pub closed spec fn current_instance_buffer(&self) -> VBOId {
        self.current_instance_buffer
    }

    /// The layout that the vertex array object was built for.
    pub closed spec fn spec_descriptor(&self) -> NamedDescriptor {
        self.descriptor
    }

    /// The pool of the context is well-formed.
    pub open spec fn wf(&self) -> bool {
        self.pool().wf()
    }

    /// The context over a vertex array object and a pool that was built
    /// elsewhere.
    pub fn from_parts(vao: VAO, instance_pool: InstancePool<T>, descriptor: NamedDescriptor) -> (context:
        Self)
        ensures
            context.spec_vao() == vao,
            context.pool() == instance_pool,
            context.current_instance_buffer() == vao.instance_vbo_id,
            context.spec_descriptor() == descriptor,
    {
        VertexContext {
            current_instance_buffer: vao.instance_vbo_id,
            vao,
            instance_pool,
            descriptor,
        }
    }

    /// A context for the layout `descriptor` that shares the vertices and
    /// indices of `base_vao`. Its vertex array object and that object's
    /// instance buffer take the device's next two handles. The pool is empty,
    /// maps chunks of `CONTEXT_CHUNK_SIZE` slots, and duplicates instances
    /// per vertex exactly where the base object's divisor is zero.
    pub fn new(
        device: &mut Device,
        descriptor: NamedDescriptor,
        base_vao: &VAO,
        usage_hint: VertexUsageHint,
    ) -> (context: Self)
        ensures
            context.wf(),
            context.spec_vao() == new_vao_sharing(old(device)@.next_handle(), descriptor, *base_vao),
            context.current_instance_buffer() == context.spec_vao().instance_vbo_id,
            context.spec_descriptor() == descriptor,
            context.pool()@ == (PoolView::<T> {
                chunk_size: CONTEXT_CHUNK_SIZE as nat,
                usage_hint,
                duplicate_per_vertex: base_vao.instance_divisor == 0,
                epoch: 0,
                used: Seq::empty(),
                chunks: Seq::empty(),
                mapped: Seq::empty(),
                ready: Seq::empty(),
            }),
            final(device)@ == old(device)@.allocate(2).issue(
                DeviceCommand::CreateVaoWithNewInstances { vao: context.spec_vao(), descriptor },
            ),
    {
        let vao = device.create_vao_with_new_instances(descriptor, base_vao);
        let instanced: bool = base_vao.instance_divisor != 0;
        VertexContext {
            current_instance_buffer: vao.instance_vbo_id,
            vao,
            instance_pool: InstancePool::new(CONTEXT_CHUNK_SIZE, usage_hint, !instanced),
            descriptor,
        }
    }

    /// The pool of the context.
    pub fn instance_pool(&self) -> (pool: &InstancePool<T>)
        ensures
            *pool == self.pool(),
    {
        &self.instance_pool
    }

    /// The vertex array object of the context.
    pub fn vao(&self) -> (vao: &VAO)
        ensures
            *vao == self.spec_vao(),
    {
        &self.vao
    }

    /// The device after `deinit`: what is mapped is unmapped, the buffers of
    /// the pool are destroyed, and then the vertex array object.
    pub open spec fn device_after_deinit(&self, device: DeviceView) -> DeviceView {
        device_after_deleting(
            DeviceView {
                commands: device.commands + self.pool()@.finish_commands(),
                live: device.live,
            },
            self.pool()@.ready + self.pool()@.used,
        ).retire_vao(self.spec_vao()).issue(DeviceCommand::DeleteVao { vao: self.spec_vao() })
    }

    /// Gives up the context: its pool, as `InstancePool::deinit` does, and
    /// then its vertex array object.
    pub fn deinit(self, device: &mut Device)
        requires
            self.wf(),
        ensures
            final(device)@ == self.device_after_deinit(old(device)@),
    {
        self.instance_pool.deinit(device);
        device.delete_vao(self.vao);
    }

    /// The context as it is when drawing: the buffers staged in this frame
    /// and the settings of the pool. No chunk may be mapped any more.
    pub fn to_ref(&mut self) -> (context: VertexContextRef<'_>)
        requires
            old(self).pool()@.mapped.len() == 0,
        ensures
            context.shows(old(self).summary()),
            old(self).rebound(final(self), *final(context.current_instance_buffer)),
    {
        VertexContextRef {
            vao: &self.vao,
            instance_buffers: self.instance_pool.used_chunks().as_slice(),
            current_instance_buffer: &mut self.current_instance_buffer,
            descriptor: self.descriptor,
            duplicate_per_vertex: self.instance_pool.duplicate_per_vertex(),
            usage_hint: self.instance_pool.usage_hint(),
            epoch: self.instance_pool.epoch(),
        }
    }

    /// Whether this is a context that has just been made: over `vao`, for
    /// the layout `descriptor`, reading from the object's own instance
    /// buffer, with `pool` as the view of its pool.
    pub open spec fn is_new(&self, vao: VAO, descriptor: NamedDescriptor, pool: PoolView<T>) -> bool {
        &&& self.wf()
        &&& self.spec_vao() == vao
        &&& self.spec_descriptor() == descriptor
        &&& self.current_instance_buffer() == vao.instance_vbo_id
        &&& self.pool()@ == pool
    }

    /// What the context is when drawing.
    pub open spec fn summary(&self) -> ContextSummary {
        ContextSummary {
            vao: self.spec_vao(),
            descriptor: self.spec_descriptor(),
            current_instance_buffer: self.current_instance_buffer(),
            instance_buffers: self.pool()@.used,
            duplicate_per_vertex: self.pool()@.duplicate_per_vertex,
            usage_hint: self.pool()@.usage_hint,
            epoch: self.pool()@.epoch,
            mapped: self.pool()@.mapped.len(),
        }
    }

    /// Whether `later` is this context with `buffer` as the instance buffer
    /// read at present, and all else as it is.
    pub open spec fn rebound(&self, later: &Self, buffer: VBOId) -> bool {
        &&& later.spec_vao() == self.spec_vao()
        &&& later.pool() == self.pool()
        &&& later.spec_descriptor() == self.spec_descriptor()
        &&& later.current_instance_buffer() == buffer
    }

    /// Whether `later` is this context with `pool` as the view of its pool,
    /// and all else as it is.
    pub open spec fn with_pool(&self, later: &Self, pool: PoolView<T>) -> bool {
        &&& later.wf()
        &&& later.spec_vao() == self.spec_vao()
        &&& later.pool()@ == pool
        &&& later.spec_descriptor() == self.spec_descriptor()
        &&& later.current_instance_buffer() == self.current_instance_buffer()
    }

    /// Resets the pool of the context, as `InstancePool::reset` does.
    pub fn reset_instance_pool(&mut self)
        requires
            old(self).wf(),
            old(self).pool()@.mapped.len() == 0,
            old(self).pool()@.epoch < u64::MAX,
        ensures
            old(self).with_pool(final(self), old(self).pool()@.after_reset()),
    {
        self.instance_pool.reset();
    }

    /// Unmaps the chunks of the pool that are still mapped, as
    /// `InstancePool::finish` does.
    pub fn finish_populating_instances(&mut self, device: &mut Device)
        requires
            old(self).wf(),
        ensures
            old(self).with_pool(final(self), old(self).pool()@.after_finish()),
            final(device)@.commands == old(device)@.commands + old(self).pool()@.finish_commands(),
            final(device)@.live == old(device)@.live,
    {
        self.instance_pool.finish(device);
    }

    /// Pool and device of the context, as one.
    pub open spec fn staging(&self, device: DeviceView) -> Staging<T> {
        Staging { pool: self.pool()@, device }
    }

    /// Stages the instances of each list that is not empty, list after list:
    /// the instances are added to the pool, the list is given the range they
    /// were staged at, and it is emptied. Empty lists are passed over and keep
    /// the range they had.
    pub fn bake_instances(&mut self, device: &mut Device, lists: &mut Vec<InstanceList<T>>)
        requires
            old(self).wf(),
            old(self).pool()@.known_to(old(device)@),
            old(self).staging(old(device)@).can_bake(
                list_data(old(lists)@),
                vstd::layout::size_of::<T>(),
            ),
        ensures
            final(self).wf(),
            final(self).spec_vao() == old(self).spec_vao(),
            final(self).spec_descriptor() == old(self).spec_descriptor(),
            final(self).current_instance_buffer() == old(self).current_instance_buffer(),
            final(self).staging(final(device)@) == old(self).staging(old(device)@).bake(
                list_data(old(lists)@),
                vstd::layout::size_of::<T>(),
            ),
            final(self).pool()@.known_to(final(device)@),
            final(lists)@.len() == old(lists)@.len(),
            forall|i: int|
                0 <= i < old(lists)@.len() ==> {
                    &&& (#[trigger] final(lists)@[i]).data@.len() == 0
                    &&& final(lists)@[i].range == if old(lists)@[i].data@.len() == 0 {
                        old(lists)@[i].range
                    } else {
                        Some(
                            old(self).staging(old(device)@).range_of_baked(
                                list_data(old(lists)@),
                                i,
                                vstd::layout::size_of::<T>(),
                            ),
                        )
                    }
                },
    {
        let ghost start = self.staging(device@);
        let ghost data = list_data(lists@);
        let ghost record_size = vstd::layout::size_of::<T>();
        let mut i: usize = 0;
        while i < lists.len()
            invariant
                i <= lists@.len(),
                lists@.len() == old(lists)@.len(),
                data == list_data(old(lists)@),
                start == old(self).staging(old(device)@),
                record_size == vstd::layout::size_of::<T>(),
                start.can_bake(data, record_size),
                self.wf(),
                self.spec_vao() == old(self).spec_vao(),
                self.spec_descriptor() == old(self).spec_descriptor(),
                self.current_instance_buffer() == old(self).current_instance_buffer(),
                self.pool()@.known_to(device@),
                self.staging(device@) == start.bake(data.take(i as int), record_size),
                forall|j: int| i <= j < lists@.len() ==> lists@[j] == old(lists)@[j],
                forall|j: int|
                    0 <= j < i ==> {
                        &&& (#[trigger] lists@[j]).data@.len() == 0
                        &&& lists@[j].range == if old(lists)@[j].data@.len() == 0 {
                            old(lists)@[j].range
                        } else {
                            Some(start.range_of_baked(data, j, record_size))
                        }
                    },
            decreases lists@.len() - i,
        {
            let ghost before = self.staging(device@);
            proof {
                assert(data.take(i + 1).drop_last() =~= data.take(i as int));
                assert(data.take(i + 1).last() == data[i as int]);
                assert(data[i as int] == lists@[i as int].data@);
                reveal(Staging::add);
            }
            if lists[i].data.len() != 0 {
                assert(before.pool.can_add(data[i as int].len(), record_size));
                let range = self.instance_pool.add(lists[i].data.as_slice(), device);
                lists[i].range = Some(range);
                lists[i].data.clear();
            }
            i += 1;
        }
        proof {
            assert(data.take(i as int) =~= data);
        }
    }
}

} // verus!
