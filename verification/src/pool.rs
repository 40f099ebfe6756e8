//! The instance pool: packs the instances of many batches into few vertex
//! buffers, and keeps the buffers from one frame to the next.

use vstd::prelude::*;
use crate::batch::{InstanceBufferIndex, InstanceRange};
use crate::device::{Device, DeviceCommand, DeviceView, VBOId, VertexUsageHint};
use crate::pool_model::{expand, larger, lemma_expand_len, lemma_whole_quads, PoolView};
use crate::units::VERTICES_PER_INSTANCE;

verus! {

/// A chunk that is still mapped: its place among the buffers in use, and the
/// number of slots written to it so far.
#[derive(Clone, Copy)]
struct MappedChunk {
    buffer_index: InstanceBufferIndex,
    size: usize,
}

/// A pool of vertex buffers for instances of type `T`.
pub struct InstancePool<T> {
    chunk_size: usize,
    mapped_chunks: Vec<MappedChunk>,
    used_chunks: Vec<VBOId>,
    used_slots: Vec<Vec<T>>,
    ready_chunks: Vec<VBOId>,
    usage_hint: VertexUsageHint,
    duplicate_per_vertex: bool,
    epoch: u64,
}

/// The device after the buffers were destroyed, one after another.
pub open spec fn device_after_deleting(device: DeviceView, buffers: Seq<VBOId>) -> DeviceView
    decreases buffers.len(),
{
    if buffers.len() == 0 {
        device
    } else {
        device_after_deleting(device, buffers.drop_last()).retire(buffers.last().0).issue(
            DeviceCommand::DeleteVbo { buffer: buffers.last() },
        )
    }
}

/// Appends to `slots` the slots written for `instances`: each instance four
/// times in a row where instances are duplicated per vertex, else once.
pub fn fill<T: Copy>(slots: &mut Vec<T>, instances: &[T], duplicate_per_vertex: bool)
    ensures
        final(slots)@ == old(slots)@ + expand(instances@, duplicate_per_vertex),
{
    let mut i: usize = 0;
    while i < instances.len()
        invariant
            i <= instances@.len(),
            slots@ == old(slots)@ + expand(instances@.take(i as int), duplicate_per_vertex),
        decreases instances@.len() - i,
    {
        let instance: T = instances[i];
        let ghost before = slots@;
        slots.push(instance);
        if duplicate_per_vertex {
            // One copy for each of the other three vertices of the quad.
            slots.push(instance);
            slots.push(instance);
            slots.push(instance);
        }
        proof {
            let done = expand(instances@.take(i as int), duplicate_per_vertex);
            let next = expand(instances@.take(i + 1), duplicate_per_vertex);
            if duplicate_per_vertex {
                assert(next =~= done + seq![instance, instance, instance, instance]);
                assert(slots@ =~= before + seq![instance, instance, instance, instance]);
            } else {
                assert(next =~= done + seq![instance]);
            }
            assert(slots@ =~= old(slots)@ + next);
        }
        i += 1;
    }
    proof {
        assert(instances@.take(i as int) =~= instances@);
    }
}

impl<T> View for InstancePool<T> {
    type V = PoolView<T>;

    closed spec fn view(&self) -> PoolView<T> {
        PoolView {
            chunk_size: self.chunk_size as nat,
            usage_hint: self.usage_hint,
            duplicate_per_vertex: self.duplicate_per_vertex,
            epoch: self.epoch as nat,
            used: self.used_chunks@,
            chunks: Seq::new(self.used_slots@.len(), |i: int| self.used_slots@[i]@),
            mapped: Seq::new(
                self.mapped_chunks@.len(),
                |k: int| self.mapped_chunks@[k].buffer_index as int,
            ),
            ready: self.ready_chunks@,
        }
    }
}

impl<T: Copy> InstancePool<T> {
    /// What always holds of a pool, and the size kept with each mapped chunk
    /// is the number of slots written to it.
    pub closed spec fn wf(&self) -> bool {
        &&& self@.inv()
        &&& forall|k: int|
            0 <= k < self.mapped_chunks@.len() ==> (#[trigger] self.mapped_chunks@[k]).size
                == self.used_slots@[self.mapped_chunks@[k].buffer_index as int]@.len()
    }

    /// What always holds of a pool holds of a well-formed pool.
    pub proof fn lemma_wf(&self)
        requires
            self.wf(),
        ensures
            self@.inv(),
    {
    }

    /// An empty pool in its first epoch. `chunk_size` is the number of slots
    /// that chunks are mapped with; with zero, every batch gets a buffer of
    /// its own.
    pub fn new(chunk_size: usize, usage_hint: VertexUsageHint, duplicate_per_vertex: bool) -> (pool:
        Self)
        ensures
            pool.wf(),
            pool@ == (PoolView::<T> {
                chunk_size: chunk_size as nat,
                usage_hint,
                duplicate_per_vertex,
                epoch: 0,
                used: Seq::empty(),
                chunks: Seq::empty(),
                mapped: Seq::empty(),
                ready: Seq::empty(),
            }),
    {
        let pool = InstancePool {
            chunk_size,
            mapped_chunks: Vec::new(),
            used_chunks: Vec::new(),
            used_slots: Vec::new(),
            ready_chunks: Vec::new(),
            usage_hint,
            duplicate_per_vertex,
            epoch: 0,
        };
        proof {
            assert(pool@.chunks =~= Seq::empty());
            assert(pool@.mapped =~= Seq::empty());
            assert((pool@.used + pool@.ready) =~= Seq::empty());
        }
        pool
    }

    /// Number of slots that chunks are mapped with.
    pub fn chunk_size(&self) -> (chunk_size: usize)
        ensures
            chunk_size == self@.chunk_size,
    {
        self.chunk_size
    }

    /// The hint that buffers are filled with.
    pub fn usage_hint(&self) -> (usage_hint: VertexUsageHint)
        ensures
            usage_hint == self@.usage_hint,
    {
        self.usage_hint
    }

    /// Whether each instance is written four times, once per vertex.
    pub fn duplicate_per_vertex(&self) -> (duplicate_per_vertex: bool)
        ensures
            duplicate_per_vertex == self@.duplicate_per_vertex,
    {
        self.duplicate_per_vertex
    }

    /// Number of resets so far.
    pub fn epoch(&self) -> (epoch: u64)
        ensures
            epoch == self@.epoch,
    {
        self.epoch
    }

    /// The buffers in use in this frame.
    pub fn used_chunks(&self) -> (used: &Vec<VBOId>)
        ensures
            used@ == self@.used,
    {
        &self.used_chunks
    }

    /// The idle buffers.
    pub fn ready_chunks(&self) -> (ready: &Vec<VBOId>)
        ensures
            ready@ == self@.ready,
    {
        &self.ready_chunks
    }

    /// Number of chunks that are still mapped.
    pub fn mapped_chunk_count(&self) -> (count: usize)
        ensures
            count == self@.mapped.len(),
    {
        self.mapped_chunks.len()
    }

    /// The slots written so far to the buffer in use at `buffer_index`.
    pub fn slots(&self, buffer_index: InstanceBufferIndex) -> (slots: &Vec<T>)
        requires
            self.wf(),
            buffer_index < self@.used.len(),
        ensures
            slots@ == self@.chunks[buffer_index as int],
    {
        &self.used_slots[buffer_index as usize]
    }

    /// Whether every buffer of the pool has a handle that `device` has given
    /// out.
    pub fn is_known_to(&self, device: &Device) -> (known: bool)
        ensures
            known == self@.known_to(device@),
    {
        let handles: usize = device.handle_count();
        let mut i: usize = 0;
        while i < self.used_chunks.len()
            invariant
                i <= self.used_chunks@.len(),
                handles == device@.next_handle(),
                forall|j: int| 0 <= j < i ==> (#[trigger] self@.used[j]).0 < handles,
            decreases self.used_chunks@.len() - i,
        {
            if self.used_chunks[i].0 >= handles {
                assert(self@.used[i as int].0 >= handles);
                return false;
            }
            i += 1;
        }
        let mut i: usize = 0;
        while i < self.ready_chunks.len()
            invariant
                i <= self.ready_chunks@.len(),
                handles == device@.next_handle(),
                forall|j: int| 0 <= j < self@.used.len() ==> (#[trigger] self@.used[j]).0 < handles,
                forall|j: int| 0 <= j < i ==> (#[trigger] self@.ready[j]).0 < handles,
            decreases self.ready_chunks@.len() - i,
        {
            if self.ready_chunks[i].0 >= handles {
                assert(self@.ready[i as int].0 >= handles);
                return false;
            }
            i += 1;
        }
        true
    }

    /// Whether `add` can stage `count` instances: the slots can be counted
    /// and, where a new chunk is needed, its index fits a buffer index and
    /// the size in bytes of the mapping can be counted.
    pub fn can_add(&self, count: usize) -> (possible: bool)
        requires
            self.wf(),
        ensures
            possible == self@.can_add(count as nat, vstd::layout::size_of::<T>()),
    {
        let ghost pre = self@;
        let repeat_count: usize = if self.duplicate_per_vertex {
            VERTICES_PER_INSTANCE
        } else {
            1
        };
        let extra_size: usize = match count.checked_mul(repeat_count) {
            Some(extra_size) => extra_size,
            None => {
                return false;
            },
        };
        proof {
            pre.lemma_first_fit(extra_size as nat);
        }
        let mut k: usize = 0;
        while k < self.mapped_chunks.len()
            invariant
                k <= self.mapped_chunks@.len(),
                self.wf(),
                pre == self@,
                extra_size == count * pre.repeat(),
                forall|j: int| 0 <= j < k ==> !pre.has_room(j, extra_size as nat),
            decreases self.mapped_chunks@.len() - k,
        {
            let chunk: MappedChunk = self.mapped_chunks[k];
            assert(chunk.size == pre.chunks[pre.mapped[k as int]].len());
            assert(pre.chunks[pre.mapped[k as int]].len() <= pre.chunk_size);
            if extra_size <= self.chunk_size - chunk.size {
                proof {
                    assert(pre.is_first_fit(k as int, extra_size as nat));
                    pre.lemma_first_fit(extra_size as nat);
                }
                return true;
            }
            k += 1;
        }
        proof {
            pre.lemma_first_fit(extra_size as nat);
            assert(pre.first_fit(extra_size as nat) is None);
        }
        if self.used_chunks.len() > 0xffff {
            return false;
        }
        if self.chunk_size <= extra_size && !self.duplicate_per_vertex {
            return true;
        }
        let slot_count: usize = if self.chunk_size >= extra_size {
            self.chunk_size
        } else {
            extra_size
        };
        assert(slot_count == larger(pre.chunk_size, extra_size as nat));
        slot_count.checked_mul(core::mem::size_of::<T>()).is_some()
    }

    /// Stages `instances` and returns the range they were staged at.
    ///
    /// The slots written for the instances go to the end of the first mapped
    /// chunk that has room for them. Where none has, they start a new chunk:
    /// in the idle buffer put aside last or, where none is idle, in a new
    /// buffer. The new chunk is uploaded in one go where the batch is at
    /// least a chunk in size and instances are not duplicated; else its
    /// buffer is mapped, and stays mapped unless the batch fills it.
    ///
    /// The range lies within what has been written, and the slots it stands
    /// for are the slots written for the instances.
    #[verifier::loop_isolation(false)]
    pub fn add(&mut self, instances: &[T], device: &mut Device) -> (range: InstanceRange)
        requires
            old(self).wf(),
            old(self)@.known_to(old(device)@),
            old(self)@.can_add(instances@.len(), vstd::layout::size_of::<T>()),
        ensures
            final(self).wf(),
            final(self)@ == old(self)@.after_add(instances@, old(device)@.next_handle()),
            range == old(self)@.range_of_add(instances@.len()),
            final(device)@ == old(self)@.device_after_add(
                old(device)@,
                instances@.len(),
                vstd::layout::size_of::<T>(),
            ),
            final(self)@.known_to(final(device)@),
            final(self)@.holds(range),
            final(self)@.slots_of(range) == expand(instances@, old(self)@.duplicate_per_vertex),
    {
        let ghost pre = self@;
        let ghost record_size = vstd::layout::size_of::<T>();
        let total_size: usize = self.chunk_size;
        let repeat_count: usize = if self.duplicate_per_vertex {
            VERTICES_PER_INSTANCE
        } else {
            1
        };
        let extra_size: usize = instances.len() * repeat_count;
        proof {
            device.lemma_handles_countable();
            lemma_expand_len(instances@, self.duplicate_per_vertex);
            pre.lemma_first_fit(extra_size as nat);
            pre.lemma_add_keeps_inv(instances@, device@, record_size);
            pre.lemma_add_range(instances@, device@.next_handle());
        }

        // The first mapped chunk with room takes the instances.
        let mut k: usize = 0;
        while k < self.mapped_chunks.len()
            invariant
                k <= self.mapped_chunks@.len(),
                *self == *old(self),
                *device == *old(device),
                forall|j: int| 0 <= j < k ==> !pre.has_room(j, extra_size as nat),
            decreases self.mapped_chunks@.len() - k,
        {
            let chunk: MappedChunk = self.mapped_chunks[k];
            assert(chunk.size == pre.chunks[pre.mapped[k as int]].len());
            assert(pre.chunks[pre.mapped[k as int]].len() <= pre.chunk_size);
            if extra_size <= total_size - chunk.size {
                proof {
                    assert(pre.is_first_fit(k as int, extra_size as nat));
                    pre.lemma_first_fit_unique(
                        k as int,
                        pre.first_fit(extra_size as nat)->0,
                        extra_size as nat,
                    );
                }
                let index: usize = chunk.buffer_index as usize;
                fill(&mut self.used_slots[index], instances, self.duplicate_per_vertex);
                let size: usize = chunk.size + extra_size;
                self.mapped_chunks.set(k, MappedChunk { buffer_index: chunk.buffer_index, size });
                proof {
                    if self.duplicate_per_vertex {
                        lemma_whole_quads(chunk.size as nat, instances@.len());
                    }
                }
                let full_instance_count: usize = size / repeat_count;
                proof {
                    let post = pre.after_add(instances@, device@.next_handle());
                    assert(self@.mapped =~= post.mapped);
                    assert(self@.chunks =~= post.chunks);
                    assert(self@ == post);
                    assert forall|j: int| 0 <= j < self.mapped_chunks@.len() implies (
                    #[trigger] self.mapped_chunks@[j]).size
                        == self.used_slots@[self.mapped_chunks@[j].buffer_index as int]@.len() by {
                        if j != k {
                            assert(self.mapped_chunks@[j] == old(self).mapped_chunks@[j]);
                            assert(pre.mapped[j] != pre.mapped[k as int]) by {
                                if j < k {
                                    assert(pre.mapped[j] < pre.mapped[k as int]);
                                } else {
                                    assert(pre.mapped[k as int] < pre.mapped[j]);
                                }
                            }
                        }
                    }
                }
                return InstanceRange {
                    buffer_index: chunk.buffer_index,
                    sub_range: full_instance_count - instances.len()..full_instance_count,
                    epoch: self.epoch,
                };
            }
            k += 1;
        }
        assert(pre.first_fit(extra_size as nat) is None);

        // No mapped chunk has room: the instances start a new chunk, in an
        // idle buffer or in a new one.
        let buffer: VBOId = match self.ready_chunks.pop() {
            Some(buffer) => buffer,
            None => device.create_vbo_raw(),
        };
        assert(buffer == pre.next_buffer(old(device)@.next_handle()));

        let buffer_index: InstanceBufferIndex = self.used_chunks.len() as u16;
        self.used_chunks.push(buffer);
        let mut slots: Vec<T> = Vec::new();
        fill(&mut slots, instances, self.duplicate_per_vertex);
        proof {
            assert(slots@ =~= expand(instances@, self.duplicate_per_vertex));
        }
        self.used_slots.push(slots);
        if self.chunk_size <= extra_size && !self.duplicate_per_vertex {
            device.update_vbo_data(buffer, instances, self.usage_hint);
        } else {
            let slot_count: usize = if self.chunk_size >= extra_size {
                self.chunk_size
            } else {
                extra_size
            };
            assert(slot_count == larger(pre.chunk_size, extra_size as nat));
            device.initialize_mapped_vertex_buffer(
                buffer,
                slot_count * core::mem::size_of::<T>(),
                self.usage_hint,
            );
            if self.chunk_size <= extra_size {
                device.unmap_vertex_buffer();
            } else {
                self.mapped_chunks.push(MappedChunk { buffer_index, size: extra_size });
            }
        }
        proof {
            let post = pre.after_add(instances@, old(device)@.next_handle());
            assert(self@.mapped =~= post.mapped);
            assert(self@.chunks =~= post.chunks);
            assert(self@.ready =~= post.ready);
            assert(self@ == post);
            assert forall|j: int| 0 <= j < self.mapped_chunks@.len() implies (
            #[trigger] self.mapped_chunks@[j]).size
                == self.used_slots@[self.mapped_chunks@[j].buffer_index as int]@.len() by {
                if j < old(self).mapped_chunks@.len() {
                    assert(self.mapped_chunks@[j] == old(self).mapped_chunks@[j]);
                    assert(0 <= pre.mapped[j] < pre.used.len());
                }
            }
        }
        InstanceRange { buffer_index, sub_range: 0..instances.len(), epoch: self.epoch }
    }

    /// Unmaps every chunk that is still mapped: for each, in the order of
    /// mapping, its buffer is bound and then unmapped. No chunk is mapped
    /// afterwards; nothing else changes. With no mapped chunk, nothing happens
    /// at all.
    pub fn finish(&mut self, device: &mut Device)
        requires
            old(self).wf(),
        ensures
            final(self).wf(),
            final(self)@ == old(self)@.after_finish(),
            final(self)@.mapped.len() == 0,
            final(device)@.commands == old(device)@.commands + old(self)@.finish_commands(),
            final(device)@.live == old(device)@.live,
            old(self)@.mapped.len() == 0 ==> final(self)@ == old(self)@ && final(device)@ == old(
                device,
            )@,
    {
        let ghost pre = self@;
        let mut k: usize = 0;
        while k < self.mapped_chunks.len()
            invariant
                k <= self.mapped_chunks@.len(),
                self.wf(),
                self@ == pre,
                device@.live == old(device)@.live,
                device@.commands == old(device)@.commands + pre.finish_commands().take(2 * k),
            decreases self.mapped_chunks@.len() - k,
        {
            let chunk: MappedChunk = self.mapped_chunks[k];
            assert(0 <= pre.mapped[k as int] < pre.used.len());
            let buffer: VBOId = self.used_chunks[chunk.buffer_index as usize];
            device.bind_vbo(buffer);
            device.unmap_vertex_buffer();
            proof {
                assert(pre.finish_commands().take(2 * (k + 1)) =~= pre.finish_commands().take(2 * k)
                    + seq![DeviceCommand::BindVbo { buffer }, DeviceCommand::UnmapVertexBuffer]);
            }
            k += 1;
        }
        proof {
            assert(pre.finish_commands().take(2 * k) =~= pre.finish_commands());
        }
        self.mapped_chunks.clear();
        proof {
            assert(self@.mapped =~= Seq::empty());
            assert(self@.chunks =~= pre.chunks);
            if pre.mapped.len() == 0 {
                pre.lemma_finish_without_mapped_chunks();
                assert(device@.commands =~= old(device)@.commands);
            }
        }
    }

    /// Starts a new epoch: the buffers in use join the idle ones, behind them
    /// and in their order, and no buffer is in use any more. Ranges returned
    /// before are over.
    pub fn reset(&mut self)
        requires
            old(self).wf(),
            old(self)@.mapped.len() == 0,
            old(self)@.epoch < u64::MAX,
        ensures
            final(self).wf(),
            final(self)@ == old(self)@.after_reset(),
            final(self)@.used.len() == 0,
            final(self)@.ready.len() == old(self)@.ready.len() + old(self)@.used.len(),
            final(self)@.epoch == old(self)@.epoch + 1,
    {
        let ghost pre = self@;
        proof {
            pre.lemma_reset();
        }
        self.ready_chunks.append(&mut self.used_chunks);
        self.used_slots.clear();
        self.epoch += 1;
        proof {
            assert(self@.chunks =~= Seq::empty());
            assert(self@.mapped =~= pre.mapped);
            assert(self@ == pre.after_reset());
        }
    }

    /// Gives up the pool: unmaps what is mapped, as `finish` does, and then
    /// destroys every buffer, the idle ones first and then those in use, each
    /// group in its order.
    pub fn deinit(self, device: &mut Device)
        requires
            self.wf(),
        ensures
            final(device)@ == device_after_deleting(
                DeviceView {
                    commands: old(device)@.commands + self@.finish_commands(),
                    live: old(device)@.live,
                },
                self@.ready + self@.used,
            ),
    {
        let ghost pre = self@;
        let mut pool = self;
        pool.finish(device);
        // The buffers in use join the idle ones, as on a reset; no epoch
        // follows this one.
        pool.ready_chunks.append(&mut pool.used_chunks);
        let ghost unmapped = device@;
        let mut i: usize = 0;
        while i < pool.ready_chunks.len()
            invariant
                i <= pool.ready_chunks@.len(),
                pool.ready_chunks@ == pre.ready + pre.used,
                device@ == device_after_deleting(unmapped, pool.ready_chunks@.take(i as int)),
            decreases pool.ready_chunks@.len() - i,
        {
            let buffer: VBOId = pool.ready_chunks[i];
            device.delete_vbo_raw(buffer);
            proof {
                let next = pool.ready_chunks@.take(i + 1);
                assert(next.drop_last() =~= pool.ready_chunks@.take(i as int));
                assert(next.last() == buffer);
            }
            i += 1;
        }
        proof {
            assert(pool.ready_chunks@.take(i as int) =~= pool.ready_chunks@);
        }
    }
}

} // verus!
