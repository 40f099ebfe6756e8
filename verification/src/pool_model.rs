//! The instance pool as a mathematical object: what it holds, how `add`,
//! `finish` and `reset` change it, and the laws that follow.

use core::ops::Range;
use vstd::prelude::*;
use vstd::seq_lib::lemma_multiset_commutative;
use crate::batch::InstanceRange;
use crate::device::{DeviceCommand, DeviceView, VBOId, VertexUsageHint};

verus! {

/// Number of slots that one instance takes in a buffer: four, one per vertex
/// of a quad, where instances are duplicated per vertex, else one.
pub open spec fn repeat_count(duplicate_per_vertex: bool) -> nat {
    if duplicate_per_vertex {
        4
    } else {
        1
    }
}

/// The slots written for `instances`: each instance four times in a row where
/// instances are duplicated per vertex, else the instances themselves.
pub open spec fn expand<T>(instances: Seq<T>, duplicate_per_vertex: bool) -> Seq<T> {
    if duplicate_per_vertex {
        Seq::new(4 * instances.len(), |i: int| instances[i / 4])
    } else {
        instances
    }
}

/// The slots written for `instances` number `repeat_count` times the
/// instances.
pub proof fn lemma_expand_len<T>(instances: Seq<T>, duplicate_per_vertex: bool)
    ensures
        expand(instances, duplicate_per_vertex).len() == instances.len() * repeat_count(
            duplicate_per_vertex,
        ),
{
}

/// The bigger of two numbers.
pub open spec fn larger(a: nat, b: nat) -> nat {
    if a >= b {
        a
    } else {
        b
    }
}

/// Counting in slots keeps the order of two counts of instances.
pub proof fn lemma_slots_ordered(start: int, end: int, repeat: nat)
    requires
        0 <= start <= end,
    ensures
        0 <= start * repeat <= end * repeat,
{
    assert(0 <= start * repeat <= end * repeat) by (nonlinear_arith)
        requires
            0 <= start <= end,
            0 <= repeat,
    ;
}

/// A whole number of quads stays one when more quads are added.
pub proof fn lemma_whole_quads(slots: nat, count: nat)
    requires
        slots % 4 == 0,
    ensures
        (slots + 4 * count) % 4 == 0,
        slots as int / 4 * 4 == slots,
        (slots + 4 * count) as int / 4 == slots as int / 4 + count,
{
}

/// More slots written to one of the chunks are more slots among all the slots
/// written, whichever chunk they are written to.
pub proof fn lemma_slots_of_chunks<T>(chunks: Seq<Seq<T>>, target: int, slots: Seq<T>)
    requires
        0 <= target < chunks.len(),
    ensures
        chunks.update(target, chunks[target] + slots).flatten().to_multiset()
            == chunks.flatten().to_multiset().add(slots.to_multiset()),
    decreases chunks.len(),
{
    let front = chunks.drop_last();
    let last = chunks.last();
    let updated = chunks.update(target, chunks[target] + slots);
    assert(chunks =~= front.push(last));
    front.lemma_flatten_push(last);
    lemma_multiset_commutative(front.flatten(), last);
    if target == chunks.len() - 1 {
        assert(updated =~= front.push(last + slots));
        front.lemma_flatten_push(last + slots);
        assert(front.flatten() + (last + slots) =~= (front.flatten() + last) + slots);
        lemma_multiset_commutative(front.flatten() + last, slots);
    } else {
        let front_updated = front.update(target, front[target] + slots);
        assert(updated =~= front_updated.push(last));
        lemma_slots_of_chunks(front, target, slots);
        front_updated.lemma_flatten_push(last);
        lemma_multiset_commutative(front_updated.flatten(), last);
        assert(updated.flatten().to_multiset() =~= chunks.flatten().to_multiset().add(
            slots.to_multiset(),
        ));
    }
}

/// The instance pool as contracts speak of it.
pub struct PoolView<T> {
    /// Number of slots that a chunk is mapped with; zero gives every batch a
    /// buffer of its own.
    pub chunk_size: nat,
    /// The hint that buffers are filled with.
    pub usage_hint: VertexUsageHint,
    /// Whether each instance is written four times, once per vertex.
    pub duplicate_per_vertex: bool,
    /// Number of resets so far.
    pub epoch: nat,
    /// The buffers in use in this frame, in the order in which they were
    /// taken into use. A range's buffer index counts in here.
    pub used: Seq<VBOId>,
    /// The slots written so far to each buffer in use.
    pub chunks: Seq<Seq<T>>,
    /// The buffers in use that are still mapped, by their index in `used`,
    /// in the order in which they were mapped.
    pub mapped: Seq<int>,
    /// Idle buffers, kept to be used again.
    pub ready: Seq<VBOId>,
}

impl<T> PoolView<T> {
    /// Number of slots that one instance takes.
    pub open spec fn repeat(self) -> nat {
        repeat_count(self.duplicate_per_vertex)
    }

    /// What always holds of a pool.
    pub open spec fn inv(self) -> bool {
        &&& self.chunk_size <= usize::MAX
        &&& self.epoch <= u64::MAX
        &&& self.chunks.len() == self.used.len()
        &&& self.used.len() <= 0x1_0000
        &&& forall|k: int|
            0 <= k < self.mapped.len() ==> 0 <= #[trigger] self.mapped[k] < self.used.len()
        &&& forall|j: int, k: int|
            0 <= j < k < self.mapped.len() ==> #[trigger] self.mapped[j] < #[trigger] self.mapped[k]
        &&& forall|k: int|
            0 <= k < self.mapped.len() ==> self.chunks[#[trigger] self.mapped[k]].len()
                <= self.chunk_size
        &&& forall|i: int|
            0 <= i < self.chunks.len() ==> (#[trigger] self.chunks[i]).len() % self.repeat() == 0
        &&& (self.used + self.ready).no_duplicates()
    }

    /// Every buffer of the pool has a handle that the device has given out.
    pub open spec fn known_to(self, device: DeviceView) -> bool {
        &&& forall|i: int|
            0 <= i < self.used.len() ==> (#[trigger] self.used[i]).0 < device.next_handle()
        &&& forall|i: int|
            0 <= i < self.ready.len() ==> (#[trigger] self.ready[i]).0 < device.next_handle()
    }

    /// Whether the `k`-th mapped chunk has room for `extra` more slots.
    pub open spec fn has_room(self, k: int, extra: nat) -> bool {
        self.chunks[self.mapped[k]].len() + extra <= self.chunk_size
    }

    /// Whether the `k`-th mapped chunk is the first, in the order of mapping,
    /// with room for `extra` more slots.
    pub open spec fn is_first_fit(self, k: int, extra: nat) -> bool {
        &&& 0 <= k < self.mapped.len()
        &&& self.has_room(k, extra)
        &&& forall|j: int| 0 <= j < k ==> !self.has_room(j, extra)
    }

    /// The first mapped chunk with room for `extra` more slots, if any, by
    /// its place among the mapped chunks.
    pub open spec fn first_fit(self, extra: nat) -> Option<int> {
        if exists|k: int| self.is_first_fit(k, extra) {
            Some(choose|k: int| self.is_first_fit(k, extra))
        } else {
            None
        }
    }

    /// The buffer that a new chunk gets: the idle buffer that was put aside
    /// last, or, where none is idle, a new one on the device's next handle.
    pub open spec fn next_buffer(self, next_handle: nat) -> VBOId {
        if self.ready.len() > 0 {
            self.ready.last()
        } else {
            VBOId(next_handle as usize)
        }
    }

    /// Whether a batch of `extra` slots that needs a new chunk is uploaded in
    /// one go, without mapping the buffer.
    pub open spec fn single_shot(self, extra: nat) -> bool {
        self.chunk_size <= extra && !self.duplicate_per_vertex
    }

    /// Whether `add` can stage `count` instances of `record_size` bytes: the
    /// slots can be counted and, where a new chunk is needed, its index fits
    /// a buffer index and the size in bytes of the mapping can be counted.
    pub open spec fn can_add(self, count: nat, record_size: nat) -> bool {
        let extra = count * self.repeat();
        &&& extra <= usize::MAX
        &&& self.first_fit(extra) is None ==> {
            &&& self.used.len() <= u16::MAX
            &&& !self.single_shot(extra) ==> larger(self.chunk_size, extra) * record_size
                <= usize::MAX
        }
    }

    /// The pool after `add` of `instances`, where the device's next handle is
    /// `next_handle`.
    ///
    /// The slots of the instances go to the end of the first mapped chunk
    /// with room for them. Where there is none they start a new chunk, in the
    /// buffer `next_buffer`, which stays mapped if it is not full.
    pub open spec fn after_add(self, instances: Seq<T>, next_handle: nat) -> PoolView<T> {
        let slots = expand(instances, self.duplicate_per_vertex);
        match self.first_fit(slots.len()) {
            Some(k) => PoolView {
                chunks: self.chunks.update(self.mapped[k], self.chunks[self.mapped[k]] + slots),
                ..self
            },
            None => PoolView {
                used: self.used.push(self.next_buffer(next_handle)),
                chunks: self.chunks.push(slots),
                mapped: if slots.len() < self.chunk_size {
                    self.mapped.push(self.used.len() as int)
                } else {
                    self.mapped
                },
                ready: if self.ready.len() > 0 {
                    self.ready.drop_last()
                } else {
                    self.ready
                },
                ..self
            },
        }
    }

    /// The index in `used` of the chunk that `add` of `count` instances
    /// writes to.
    pub open spec fn target_of_add(self, count: nat) -> int {
        match self.first_fit(count * self.repeat()) {
            Some(k) => self.mapped[k],
            None => self.used.len() as int,
        }
    }

    /// The first instance that `add` of `count` instances writes, counted in
    /// instances from the start of the chunk.
    pub open spec fn start_of_add(self, count: nat) -> int {
        match self.first_fit(count * self.repeat()) {
            Some(k) => self.chunks[self.mapped[k]].len() as int / self.repeat() as int,
            None => 0,
        }
    }

    /// The range that `add` of `count` instances returns.
    pub open spec fn range_of_add(self, count: nat) -> InstanceRange {
        InstanceRange {
            buffer_index: self.target_of_add(count) as u16,
            sub_range: Range {
                start: self.start_of_add(count) as usize,
                end: (self.start_of_add(count) + count) as usize,
            },
            epoch: self.epoch as u64,
        }
    }

    /// The device after `add` of `count` instances of `record_size` bytes.
    ///
    /// Nothing reaches the device where a mapped chunk has room. Else a
    /// buffer is created where none is idle; then the instances are uploaded
    /// in one go, or the buffer is mapped with the larger of chunk size and
    /// batch size, and unmapped at once if the batch fills it.
    pub open spec fn device_after_add(self, device: DeviceView, count: nat, record_size: nat)
        -> DeviceView {
        let extra = count * self.repeat();
        let buffer = self.next_buffer(device.next_handle());
        let created = if self.ready.len() > 0 {
            device
        } else {
            device.allocate(1).issue(DeviceCommand::CreateVbo { buffer })
        };
        let mapped = created.issue(
            DeviceCommand::MapVertexBuffer {
                buffer,
                size_in_bytes: (larger(self.chunk_size, extra) * record_size) as usize,
                usage_hint: self.usage_hint,
            },
        );
        if self.first_fit(extra) is Some {
            device
        } else if self.single_shot(extra) {
            created.issue(
                DeviceCommand::UpdateVboData {
                    buffer,
                    count: count as usize,
                    size_in_bytes: (count * record_size) as usize,
                    usage_hint: self.usage_hint,
                },
            )
        } else if self.chunk_size <= extra {
            mapped.issue(DeviceCommand::UnmapVertexBuffer)
        } else {
            mapped
        }
    }

    /// The commands that `finish` issues: for each mapped chunk, in the order
    /// of mapping, its buffer is bound and then unmapped.
    pub open spec fn finish_commands(self) -> Seq<DeviceCommand> {
        Seq::new(
            2 * self.mapped.len(),
            |i: int|
                if i % 2 == 0 {
                    DeviceCommand::BindVbo { buffer: self.used[self.mapped[i / 2]] }
                } else {
                    DeviceCommand::UnmapVertexBuffer
                },
        )
    }

    /// The pool after `finish`: no chunk is mapped any more.
    pub open spec fn after_finish(self) -> PoolView<T> {
        PoolView { mapped: Seq::empty(), ..self }
    }

    /// The pool after `reset`: the buffers in use have joined the idle ones,
    /// behind them and in their order, and a new epoch has begun.
    pub open spec fn after_reset(self) -> PoolView<T> {
        PoolView {
            epoch: self.epoch + 1,
            used: Seq::empty(),
            chunks: Seq::empty(),
            ready: self.ready + self.used,
            ..self
        }
    }

    /// All the slots written in this frame, buffer after buffer.
    pub open spec fn stream(self) -> Seq<T> {
        self.chunks.flatten()
    }

    /// The slots of the chunk `range.buffer_index` that `range` stands for.
    pub open spec fn slots_of(self, range: InstanceRange) -> Seq<T> {
        self.chunks[range.buffer_index as int].subrange(
            range.sub_range.start * self.repeat(),
            range.sub_range.end * self.repeat(),
        )
    }

    /// Whether `range` lies within what has been written to the pool in its
    /// present epoch.
    pub open spec fn holds(self, range: InstanceRange) -> bool {
        &&& range.epoch == self.epoch
        &&& range.buffer_index < self.used.len()
        &&& range.sub_range.start <= range.sub_range.end
        &&& range.sub_range.end * self.repeat() <= self.chunks[range.buffer_index as int].len()
    }

    /// A device that has given out more handles since still knows every
    /// buffer of the pool.
    pub proof fn lemma_known_to_later(self, earlier: DeviceView, later: DeviceView)
        requires
            self.known_to(earlier),
            earlier.next_handle() <= later.next_handle(),
        ensures
            self.known_to(later),
    {
    }

    /// No two mapped chunks are the first with room for the same batch.
    pub proof fn lemma_first_fit_unique(self, j: int, k: int, extra: nat)
        requires
            self.is_first_fit(j, extra),
            self.is_first_fit(k, extra),
        ensures
            j == k,
    {
    }

    /// `first_fit` is the first mapped chunk with room, and there is none
    /// only if no mapped chunk has room.
    pub proof fn lemma_first_fit(self, extra: nat)
        ensures
            match self.first_fit(extra) {
                Some(k) => self.is_first_fit(k, extra),
                None => forall|k: int| 0 <= k < self.mapped.len() ==> !self.has_room(k, extra),
            },
    {
        if self.first_fit(extra) is None {
            assert forall|k: int| 0 <= k < self.mapped.len() implies !self.has_room(k, extra) by {
                self.lemma_no_room_before(k + 1, extra);
            }
        }
    }

    /// Where there is no first mapped chunk with room, none of the first
    /// `n` mapped chunks has room.
    proof fn lemma_no_room_before(self, n: int, extra: nat)
        requires
            self.first_fit(extra) is None,
            0 <= n <= self.mapped.len(),
        ensures
            forall|k: int| 0 <= k < n ==> !self.has_room(k, extra),
        decreases n,
    {
        if n > 0 {
            self.lemma_no_room_before(n - 1, extra);
            if self.has_room(n - 1, extra) {
                assert(self.is_first_fit(n - 1, extra));
            }
        }
    }

    /// `add` keeps what always holds of a pool, for a buffer handle that the
    /// pool does not have yet, and every buffer of the pool is known to the
    /// device afterwards.
    pub proof fn lemma_add_keeps_inv(self, instances: Seq<T>, device: DeviceView, record_size: nat)
        requires
            self.inv(),
            self.known_to(device),
            self.can_add(instances.len(), record_size),
            device.next_handle() <= usize::MAX,
        ensures
            self.after_add(instances, device.next_handle()).inv(),
            self.after_add(instances, device.next_handle()).known_to(
                self.device_after_add(device, instances.len(), record_size),
            ),
    {
        let slots = expand(instances, self.duplicate_per_vertex);
        let post = self.after_add(instances, device.next_handle());
        let after = self.device_after_add(device, instances.len(), record_size);
        lemma_expand_len(instances, self.duplicate_per_vertex);
        self.lemma_first_fit(slots.len());
        assert(slots.len() % self.repeat() == 0) by {
            if self.duplicate_per_vertex {
                assert(slots.len() == 4 * instances.len());
                assert((4 * instances.len()) % 4 == 0);
            }
        }
        match self.first_fit(slots.len()) {
            Some(k) => {
                let target = self.mapped[k];
                assert forall|i: int| 0 <= i < post.chunks.len() implies (
                #[trigger] post.chunks[i]).len() % post.repeat() == 0 by {
                    if i == target {
                        assert(self.chunks[i].len() % self.repeat() == 0);
                        assert(post.chunks[i].len() == self.chunks[i].len() + slots.len());
                        if self.duplicate_per_vertex {
                            lemma_whole_quads(self.chunks[i].len(), instances.len());
                        }
                    } else {
                        assert(post.chunks[i] == self.chunks[i]);
                    }
                }
                assert forall|j: int| 0 <= j < post.mapped.len() implies post.chunks[
                #[trigger] post.mapped[j]].len() <= post.chunk_size by {
                    if j != k {
                        assert(self.mapped[j] != self.mapped[k]) by {
                            if j < k {
                                assert(self.mapped[j] < self.mapped[k]);
                            } else {
                                assert(self.mapped[k] < self.mapped[j]);
                            }
                        }
                    }
                }
                assert(after == device);
            },
            None => {
                let buffer = self.next_buffer(device.next_handle());
                assert forall|j: int| 0 <= j < post.mapped.len() implies post.chunks[
                #[trigger] post.mapped[j]].len() <= post.chunk_size by {
                    if j < self.mapped.len() {
                        assert(post.mapped[j] == self.mapped[j]);
                        assert(post.chunks[self.mapped[j]] == self.chunks[self.mapped[j]]);
                    }
                }
                assert forall|i: int| 0 <= i < post.chunks.len() implies (
                #[trigger] post.chunks[i]).len() % post.repeat() == 0 by {
                    if i < self.chunks.len() {
                        assert(post.chunks[i] == self.chunks[i]);
                    }
                }
                let all = self.used + self.ready;
                let post_all = post.used + post.ready;
                assert forall|i: int, j: int|
                    0 <= i < post_all.len() && 0 <= j < post_all.len() && i != j implies post_all[i]
                    != post_all[j] by {
                    // Each buffer of the pool afterwards is the buffer at a
                    // place of its own in the pool before, or the new one.
                    let place = |p: int|
                        if p < self.used.len() {
                            p
                        } else if p == self.used.len() {
                            all.len() - 1
                        } else {
                            p - 1
                        };
                    if self.ready.len() > 0 {
                        assert(post_all[i] == all[place(i)]);
                        assert(post_all[j] == all[place(j)]);
                        assert(place(i) != place(j));
                    } else {
                        assert(buffer.0 == device.next_handle());
                        if i < self.used.len() {
                            assert(post_all[i] == self.used[i]);
                        }
                        if j < self.used.len() {
                            assert(post_all[j] == self.used[j]);
                        }
                        if i < self.used.len() && j < self.used.len() {
                            assert(all[i] != all[j]);
                        }
                    }
                }
                assert forall|j: int, k: int| 0 <= j < k < post.mapped.len() implies
                    #[trigger] post.mapped[j] < #[trigger] post.mapped[k] by {
                    if k < self.mapped.len() {
                        assert(self.mapped[j] < self.mapped[k]);
                    }
                }
                assert(device.next_handle() <= after.next_handle());
                assert forall|i: int| 0 <= i < post.used.len() implies (#[trigger] post.used[i]).0
                    < after.next_handle() by {
                    if i < self.used.len() {
                        assert(post.used[i] == self.used[i]);
                    } else if self.ready.len() > 0 {
                        assert(post.used[i] == self.ready[self.ready.len() - 1]);
                    }
                }
                assert forall|i: int| 0 <= i < post.ready.len() implies (
                #[trigger] post.ready[i]).0 < after.next_handle() by {
                    assert(post.ready[i] == self.ready[i]);
                }
            },
        }
    }

    /// `add` takes at most one handle from the device, and none where an
    /// idle buffer or a mapped chunk with room is at hand.
    pub proof fn lemma_device_after_add_handles(
        self,
        device: DeviceView,
        count: nat,
        record_size: nat,
    )
        ensures
            self.device_after_add(device, count, record_size).live == if self.first_fit(
                count * self.repeat(),
            ) is None && self.ready.len() == 0 {
                device.live.push(true)
            } else {
                device.live
            },
            device.commands.is_prefix_of(self.device_after_add(device, count, record_size).commands),
    {
        assert(device.allocate(1).live =~= device.live.push(true));
    }

    /// The range that `add` returns lies within what has been written, and
    /// the slots it stands for are the slots written for the instances.
    pub proof fn lemma_add_range(self, instances: Seq<T>, next_handle: nat)
        requires
            self.inv(),
            instances.len() * self.repeat() <= usize::MAX,
            self.first_fit(instances.len() * self.repeat()) is None ==> self.used.len() <= u16::MAX,
            self.epoch <= u64::MAX,
        ensures
            self.after_add(instances, next_handle).holds(self.range_of_add(instances.len())),
            self.after_add(instances, next_handle).slots_of(self.range_of_add(instances.len()))
                == expand(instances, self.duplicate_per_vertex),
    {
        let slots = expand(instances, self.duplicate_per_vertex);
        let post = self.after_add(instances, next_handle);
        let range = self.range_of_add(instances.len());
        lemma_expand_len(instances, self.duplicate_per_vertex);
        self.lemma_first_fit(slots.len());
        match self.first_fit(slots.len()) {
            Some(k) => {
                let target = self.mapped[k];
                let before = self.chunks[target];
                assert(before.len() % self.repeat() == 0);
                let start = before.len() as int / self.repeat() as int;
                assert(start * self.repeat() == before.len()) by {
                    if self.duplicate_per_vertex {
                        assert(before.len() as int / 4 * 4 == before.len());
                    }
                }
                assert((start + instances.len()) * self.repeat() == before.len() + slots.len())
                    by (nonlinear_arith)
                    requires
                        start * self.repeat() == before.len(),
                        slots.len() == instances.len() * self.repeat(),
                ;
                assert(0 <= start <= before.len()) by {
                    if self.duplicate_per_vertex {
                        assert(start == before.len() as int / 4);
                    }
                }
                assert(start + instances.len() <= usize::MAX) by (nonlinear_arith)
                    requires
                        (start + instances.len()) * self.repeat() == before.len() + slots.len(),
                        before.len() + slots.len() <= self.chunk_size,
                        self.repeat() >= 1,
                        self.chunk_size <= usize::MAX,
                        start + instances.len() >= 0,
                ;
                assert(range.sub_range.start == start);
                assert(range.sub_range.end == start + instances.len());
                assert(range.buffer_index == target);
                assert(post.chunks[target] == before + slots);
                assert(post.slots_of(range) == (before + slots).subrange(
                    before.len() as int,
                    (before.len() + slots.len()) as int,
                ));
                assert(post.slots_of(range) =~= slots);
            },
            None => {
                assert(range.sub_range.start == 0);
                assert(instances.len() <= usize::MAX) by (nonlinear_arith)
                    requires
                        instances.len() * self.repeat() <= usize::MAX,
                        self.repeat() >= 1,
                ;
                assert(range.sub_range.end == instances.len());
                assert(range.buffer_index == self.used.len());
                assert(0 * self.repeat() == 0);
                assert(post.chunks[self.used.len() as int] == slots);
                assert(post.slots_of(range) == slots.subrange(0, slots.len() as int));
                assert(post.slots_of(range) =~= slots);
            },
        }
    }

    /// `add` leaves every range that the pool holds as it is: the same
    /// buffer, and the same slots behind it.
    pub proof fn lemma_add_keeps_ranges(
        self,
        instances: Seq<T>,
        next_handle: nat,
        earlier: InstanceRange,
    )
        requires
            self.inv(),
            self.holds(earlier),
        ensures
            self.after_add(instances, next_handle).holds(earlier),
            self.after_add(instances, next_handle).slots_of(earlier) == self.slots_of(earlier),
            self.after_add(instances, next_handle).used[earlier.buffer_index as int]
                == self.used[earlier.buffer_index as int],
    {
        let slots = expand(instances, self.duplicate_per_vertex);
        let post = self.after_add(instances, next_handle);
        self.lemma_first_fit(slots.len());
        let index = earlier.buffer_index as int;
        lemma_slots_ordered(
            earlier.sub_range.start as int,
            earlier.sub_range.end as int,
            self.repeat(),
        );
        assert(self.chunks[index].is_prefix_of(post.chunks[index])) by {
            match self.first_fit(slots.len()) {
                Some(k) => {
                    if index == self.mapped[k] {
                        assert(post.chunks[index] == self.chunks[index] + slots);
                    } else {
                        assert(post.chunks[index] == self.chunks[index]);
                    }
                },
                None => {
                    assert(post.chunks[index] == self.chunks[index]);
                },
            }
        }
        assert(post.slots_of(earlier) =~= self.slots_of(earlier));
    }

    /// Where `add` writes to the last buffer in use, or starts a new one, or
    /// writes nothing at all, the slots written in this frame, buffer after
    /// buffer, grow by the slots written for the instances.
    pub proof fn lemma_add_extends_stream(self, instances: Seq<T>, next_handle: nat)
        requires
            self.inv(),
            instances.len() == 0 || self.target_of_add(instances.len()) >= self.used.len() - 1,
        ensures
            self.after_add(instances, next_handle).stream() == self.stream() + expand(
                instances,
                self.duplicate_per_vertex,
            ),
    {
        let slots = expand(instances, self.duplicate_per_vertex);
        let post = self.after_add(instances, next_handle);
        lemma_expand_len(instances, self.duplicate_per_vertex);
        self.lemma_first_fit(slots.len());
        match self.first_fit(slots.len()) {
            Some(k) => {
                let target = self.mapped[k];
                if slots.len() == 0 {
                    assert(self.chunks[target] + slots =~= self.chunks[target]);
                    assert(post.chunks =~= self.chunks);
                    assert(self.stream() + slots =~= self.stream());
                } else {
                    assert(target == self.used.len() - 1);
                    let front = self.chunks.drop_last();
                    assert(self.chunks =~= front.push(self.chunks.last()));
                    assert(post.chunks =~= front.push(self.chunks.last() + slots));
                    front.lemma_flatten_push(self.chunks.last());
                    front.lemma_flatten_push(self.chunks.last() + slots);
                    assert(front.flatten() + (self.chunks.last() + slots) =~= (front.flatten()
                        + self.chunks.last()) + slots);
                }
            },
            None => {
                self.chunks.lemma_flatten_push(slots);
            },
        }
    }

    /// Whatever chunk `add` writes to, the slots written in this frame are
    /// afterwards the slots written before together with the slots written
    /// for the instances.
    pub proof fn lemma_add_extends_slots(self, instances: Seq<T>, next_handle: nat)
        requires
            self.inv(),
        ensures
            self.after_add(instances, next_handle).stream().to_multiset()
                == self.stream().to_multiset().add(
                expand(instances, self.duplicate_per_vertex).to_multiset(),
            ),
    {
        let slots = expand(instances, self.duplicate_per_vertex);
        self.lemma_first_fit(slots.len());
        match self.first_fit(slots.len()) {
            Some(k) => {
                lemma_slots_of_chunks(self.chunks, self.mapped[k], slots);
            },
            None => {
                self.chunks.lemma_flatten_push(slots);
                lemma_multiset_commutative(self.stream(), slots);
            },
        }
    }

    /// `finish` on a pool without mapped chunks issues no command and leaves
    /// the pool as it is.
    pub proof fn lemma_finish_without_mapped_chunks(self)
        requires
            self.mapped.len() == 0,
        ensures
            self.after_finish() == self,
            self.finish_commands() == Seq::<DeviceCommand>::empty(),
    {
        assert(self.mapped =~= Seq::empty());
        assert(self.finish_commands() =~= Seq::<DeviceCommand>::empty());
    }

    /// `reset` empties the buffers in use, adds as many buffers to the idle
    /// ones as were in use, and keeps what always holds of a pool.
    pub proof fn lemma_reset(self)
        requires
            self.inv(),
            self.mapped.len() == 0,
            self.epoch < u64::MAX,
        ensures
            self.after_reset().inv(),
            self.after_reset().used.len() == 0,
            self.after_reset().ready.len() == self.ready.len() + self.used.len(),
            self.after_reset().epoch == self.epoch + 1,
            forall|device: DeviceView|
                self.known_to(device) ==> #[trigger] self.after_reset().known_to(device),
    {
        let post = self.after_reset();
        let all = self.used + self.ready;
        let post_all = post.used + post.ready;
        assert(post_all =~= self.ready + self.used);
        assert forall|i: int, j: int|
            0 <= i < post_all.len() && 0 <= j < post_all.len() && i != j implies post_all[i]
            != post_all[j] by {
            let place = |p: int|
                if p < self.ready.len() {
                    p + self.used.len()
                } else {
                    p - self.ready.len()
                };
            assert(post_all[i] == all[place(i)]);
            assert(post_all[j] == all[place(j)]);
        }
    }

    /// A second `reset` right after a first changes no buffer: it only
    /// starts yet another epoch.
    pub proof fn lemma_reset_twice(self)
        requires
            self.mapped.len() == 0,
        ensures
            self.after_reset().after_reset() == (PoolView {
                epoch: self.epoch + 2,
                ..self.after_reset()
            }),
    {
        assert(self.after_reset().ready + Seq::<VBOId>::empty() =~= self.after_reset().ready);
    }

    /// A range returned before a `reset` is not held by the pool after it,
    /// nor by anything that is added later: its epoch is over.
    pub proof fn lemma_reset_ends_ranges(self, earlier: InstanceRange, later: PoolView<T>)
        requires
            earlier.epoch == self.epoch,
            later.epoch > self.epoch,
        ensures
            !later.holds(earlier),
    {
    }
}

/// An instance pool together with the device that it takes its buffers from.
pub struct Staging<T> {
    pub pool: PoolView<T>,
    pub device: DeviceView,
}

impl<T> Staging<T> {
    /// Pool and device after `add` of `instances`, which are records of
    /// `record_size` bytes.
    #[verifier::opaque]
    pub open spec fn add(self, instances: Seq<T>, record_size: nat) -> Staging<T> {
        Staging {
            pool: self.pool.after_add(instances, self.device.next_handle()),
            device: self.pool.device_after_add(self.device, instances.len(), record_size),
        }
    }

    /// Pool and device after one `add` for each of `batches`, in their order.
    pub open spec fn add_all(self, batches: Seq<Seq<T>>, record_size: nat) -> Staging<T>
        decreases batches.len(),
    {
        if batches.len() == 0 {
            self
        } else {
            self.add_all(batches.drop_last(), record_size).add(batches.last(), record_size)
        }
    }

    /// Pool and device after the instances of one list were baked: an empty
    /// list is passed over, others are added.
    pub open spec fn bake_one(self, instances: Seq<T>, record_size: nat) -> Staging<T> {
        if instances.len() == 0 {
            self
        } else {
            self.add(instances, record_size)
        }
    }

    /// Pool and device after the instances of each of `lists` were baked, in
    /// their order.
    pub open spec fn bake(self, lists: Seq<Seq<T>>, record_size: nat) -> Staging<T>
        decreases lists.len(),
    {
        if lists.len() == 0 {
            self
        } else {
            self.bake(lists.drop_last(), record_size).bake_one(lists.last(), record_size)
        }
    }

    /// Whether the instances of each of `lists` can be baked in their order:
    /// each list that is not empty can be added when its turn comes.
    pub open spec fn can_bake(self, lists: Seq<Seq<T>>, record_size: nat) -> bool {
        forall|i: int|
            0 <= i < lists.len() && (#[trigger] lists[i]).len() > 0 ==> self.bake(
                lists.take(i),
                record_size,
            ).pool.can_add(lists[i].len(), record_size)
    }

    /// The range that the `i`-th of `lists` gets when the lists are baked in
    /// their order.
    pub open spec fn range_of_baked(self, lists: Seq<Seq<T>>, i: int, record_size: nat)
        -> InstanceRange {
        self.bake(lists.take(i), record_size).pool.range_of_add(lists[i].len())
    }

    /// The pool is as it always is, and each of its buffers has a handle
    /// that the device has given out.
    pub open spec fn inv(self) -> bool {
        &&& self.pool.inv()
        &&& self.pool.known_to(self.device)
    }

    /// The slots written for each of `batches`, one batch after another.
    pub open spec fn expand_all(batches: Seq<Seq<T>>, duplicate_per_vertex: bool) -> Seq<T>
        decreases batches.len(),
    {
        if batches.len() == 0 {
            Seq::empty()
        } else {
            Self::expand_all(batches.drop_last(), duplicate_per_vertex) + expand(
                batches.last(),
                duplicate_per_vertex,
            )
        }
    }

    /// Whether `add` of `instances` is possible and goes to the buffer taken
    /// into use last or to a new one, or adds nothing.
    #[verifier::opaque]
    spec fn adds_at_end(self, instances: Seq<T>, record_size: nat) -> bool {
        &&& self.pool.can_add(instances.len(), record_size)
        &&& (instances.len() == 0 || self.pool.target_of_add(instances.len())
            >= self.pool.used.len() - 1)
    }

    /// Pool and device are as they always are, and the device can give out
    /// `spare` more handles.
    #[verifier::opaque]
    spec fn sound(self, spare: nat) -> bool {
        &&& self.inv()
        &&& self.device.next_handle() + spare <= usize::MAX
    }

    /// One `add` that goes to the buffer taken into use last or to a new one,
    /// or that adds nothing, keeps pool and device as they always are, and
    /// the slots written in the frame grow by the slots written for the
    /// batch.
    pub proof fn lemma_add_in_order(self, instances: Seq<T>, record_size: nat)
        requires
            self.inv(),
            self.device.next_handle() <= usize::MAX,
            self.pool.can_add(instances.len(), record_size),
            instances.len() == 0 || self.pool.target_of_add(instances.len()) >= self.pool.used.len()
                - 1,
        ensures
            self.add(instances, record_size).inv(),
            self.add(instances, record_size).device.next_handle() <= self.device.next_handle() + 1,
            self.add(instances, record_size).pool.stream() == self.pool.stream() + expand(
                instances,
                self.pool.duplicate_per_vertex,
            ),
            self.add(instances, record_size).pool.duplicate_per_vertex
                == self.pool.duplicate_per_vertex,
    {
        reveal(Staging::add);
        self.pool.lemma_add_keeps_inv(instances, self.device, record_size);
        self.pool.lemma_add_extends_stream(instances, self.device.next_handle());
        self.pool.lemma_device_after_add_handles(self.device, instances.len(), record_size);
    }

    /// What `lemma_add_in_order` says, for an `add` known to go to the end.
    proof fn lemma_add_at_end(self, instances: Seq<T>, record_size: nat, spare: nat)
        requires
            self.sound(spare + 1),
            self.adds_at_end(instances, record_size),
        ensures
            self.add(instances, record_size).sound(spare),
            self.add(instances, record_size).pool.stream() == self.pool.stream() + expand(
                instances,
                self.pool.duplicate_per_vertex,
            ),
            self.add(instances, record_size).pool.duplicate_per_vertex
                == self.pool.duplicate_per_vertex,
    {
        reveal(Staging::adds_at_end);
        reveal(Staging::sound);
        self.lemma_add_in_order(instances, record_size);
    }

    /// The slots written in the frame after a sequence of `add`s of which
    /// each is known to go to the end.
    proof fn lemma_adds_at_end(self, batches: Seq<Seq<T>>, record_size: nat, spare: nat)
        requires
            self.sound(spare + batches.len()),
            forall|i: int|
                0 <= i < batches.len() ==> #[trigger] self.add_all(
                    batches.take(i),
                    record_size,
                ).adds_at_end(batches[i], record_size),
        ensures
            self.add_all(batches, record_size).sound(spare),
            self.add_all(batches, record_size).pool.duplicate_per_vertex
                == self.pool.duplicate_per_vertex,
            self.add_all(batches, record_size).pool.stream() == self.pool.stream()
                + Self::expand_all(batches, self.pool.duplicate_per_vertex),
        decreases batches.len(),
    {
        if batches.len() == 0 {
            assert(self.pool.stream() + Seq::<T>::empty() =~= self.pool.stream());
        } else {
            let front = batches.drop_last();
            let last = batches.len() - 1;
            assert forall|i: int| 0 <= i < front.len() implies #[trigger] self.add_all(
                front.take(i),
                record_size,
            ).adds_at_end(front[i], record_size) by {
                assert(front.take(i) =~= batches.take(i));
                assert(self.add_all(batches.take(i), record_size).adds_at_end(
                    batches[i],
                    record_size,
                ));
            }
            assert(spare + batches.len() == (spare + 1) + front.len());
            self.lemma_adds_at_end(front, record_size, spare + 1);
            let before = self.add_all(front, record_size);
            assert(batches.take(last) =~= front);
            assert(self.add_all(batches.take(last), record_size).adds_at_end(
                batches[last],
                record_size,
            ));
            assert(before.adds_at_end(batches[last], record_size));
            assert(self.add_all(batches, record_size) == before.add(batches[last], record_size));
            before.lemma_add_at_end(batches[last], record_size, spare);
            let grown = Self::expand_all(front, self.pool.duplicate_per_vertex);
            let slots = expand(batches[last], self.pool.duplicate_per_vertex);
            assert(Self::expand_all(batches, self.pool.duplicate_per_vertex) == grown + slots);
            assert(self.pool.stream() + (grown + slots) =~= (self.pool.stream() + grown) + slots);
        }
    }

    /// Over any sequence of `add`s of which each goes to the buffer taken
    /// into use last or to a new one, or adds nothing, the slots written in
    /// the frame, buffer after buffer, grow by the slots written for each
    /// batch, batch after batch.
    pub proof fn lemma_adds_extend_stream(self, batches: Seq<Seq<T>>, record_size: nat)
        requires
            self.inv(),
            self.device.next_handle() + batches.len() <= usize::MAX,
            forall|i: int|
                0 <= i < batches.len() ==> {
                    let before = #[trigger] self.add_all(batches.take(i), record_size).pool;
                    &&& before.can_add(batches[i].len(), record_size)
                    &&& (batches[i].len() == 0 || before.target_of_add(batches[i].len())
                        >= before.used.len() - 1)
                },
        ensures
            self.add_all(batches, record_size).inv(),
            self.add_all(batches, record_size).pool.stream() == self.pool.stream()
                + Self::expand_all(batches, self.pool.duplicate_per_vertex),
    {
        assert forall|i: int| 0 <= i < batches.len() implies #[trigger] self.add_all(
            batches.take(i),
            record_size,
        ).adds_at_end(batches[i], record_size) by {
            reveal(Staging::adds_at_end);
            assert(self.add_all(batches.take(i), record_size).pool.can_add(
                batches[i].len(),
                record_size,
            ));
        }
        assert(self.sound(0 + batches.len())) by {
            reveal(Staging::sound);
        }
        self.lemma_adds_at_end(batches, record_size, 0);
        reveal(Staging::sound);
    }

    /// Whether `add` of `instances` is possible.
    #[verifier::opaque]
    spec fn adds(self, instances: Seq<T>, record_size: nat) -> bool {
        self.pool.can_add(instances.len(), record_size)
    }

    /// What one `add` does to all the slots written in the frame.
    proof fn lemma_add_any(self, instances: Seq<T>, record_size: nat, spare: nat)
        requires
            self.sound(spare + 1),
            self.adds(instances, record_size),
        ensures
            self.add(instances, record_size).sound(spare),
            self.add(instances, record_size).pool.stream().to_multiset()
                == self.pool.stream().to_multiset().add(
                expand(instances, self.pool.duplicate_per_vertex).to_multiset(),
            ),
            self.add(instances, record_size).pool.duplicate_per_vertex
                == self.pool.duplicate_per_vertex,
    {
        reveal(Staging::adds);
        reveal(Staging::sound);
        reveal(Staging::add);
        self.pool.lemma_add_keeps_inv(instances, self.device, record_size);
        self.pool.lemma_add_extends_slots(instances, self.device.next_handle());
        self.pool.lemma_device_after_add_handles(self.device, instances.len(), record_size);
    }

    /// What a sequence of `add`s does to all the slots written in the frame.
    proof fn lemma_adds_any(self, batches: Seq<Seq<T>>, record_size: nat, spare: nat)
        requires
            self.sound(spare + batches.len()),
            forall|i: int|
                0 <= i < batches.len() ==> #[trigger] self.add_all(
                    batches.take(i),
                    record_size,
                ).adds(batches[i], record_size),
        ensures
            self.add_all(batches, record_size).sound(spare),
            self.add_all(batches, record_size).pool.duplicate_per_vertex
                == self.pool.duplicate_per_vertex,
            self.add_all(batches, record_size).pool.stream().to_multiset()
                == self.pool.stream().to_multiset().add(
                Self::expand_all(batches, self.pool.duplicate_per_vertex).to_multiset(),
            ),
        decreases batches.len(),
    {
        if batches.len() == 0 {
            assert(self.pool.stream() + Seq::<T>::empty() =~= self.pool.stream());
            lemma_multiset_commutative(self.pool.stream(), Seq::<T>::empty());
        } else {
            let front = batches.drop_last();
            let last = batches.len() - 1;
            assert forall|i: int| 0 <= i < front.len() implies #[trigger] self.add_all(
                front.take(i),
                record_size,
            ).adds(front[i], record_size) by {
                assert(front.take(i) =~= batches.take(i));
                assert(self.add_all(batches.take(i), record_size).adds(batches[i], record_size));
            }
            assert(spare + batches.len() == (spare + 1) + front.len());
            self.lemma_adds_any(front, record_size, spare + 1);
            let before = self.add_all(front, record_size);
            assert(batches.take(last) =~= front);
            assert(self.add_all(batches.take(last), record_size).adds(batches[last], record_size));
            assert(before.adds(batches[last], record_size));
            assert(self.add_all(batches, record_size) == before.add(batches[last], record_size));
            before.lemma_add_any(batches[last], record_size, spare);
            let grown = Self::expand_all(front, self.pool.duplicate_per_vertex);
            let slots = expand(batches[last], self.pool.duplicate_per_vertex);
            assert(Self::expand_all(batches, self.pool.duplicate_per_vertex) == grown + slots);
            lemma_multiset_commutative(grown, slots);
            assert(self.pool.stream().to_multiset().add(grown.to_multiset()).add(
                slots.to_multiset(),
            ) =~= self.pool.stream().to_multiset().add(
                grown.to_multiset().add(slots.to_multiset()),
            ));
        }
    }

    /// Over any sequence of `add`s, wherever each of them goes, the slots
    /// written in the frame are afterwards the slots written before together
    /// with the slots written for each batch.
    pub proof fn lemma_adds_extend_slots(self, batches: Seq<Seq<T>>, record_size: nat)
        requires
            self.inv(),
            self.device.next_handle() + batches.len() <= usize::MAX,
            forall|i: int|
                0 <= i < batches.len() ==> (#[trigger] self.add_all(
                    batches.take(i),
                    record_size,
                )).pool.can_add(batches[i].len(), record_size),
        ensures
            self.add_all(batches, record_size).inv(),
            self.add_all(batches, record_size).pool.stream().to_multiset()
                == self.pool.stream().to_multiset().add(
                Self::expand_all(batches, self.pool.duplicate_per_vertex).to_multiset(),
            ),
    {
        assert forall|i: int| 0 <= i < batches.len() implies #[trigger] self.add_all(
            batches.take(i),
            record_size,
        ).adds(batches[i], record_size) by {
            reveal(Staging::adds);
            assert(self.add_all(batches.take(i), record_size).pool.can_add(
                batches[i].len(),
                record_size,
            ));
        }
        assert(self.sound(0 + batches.len())) by {
            reveal(Staging::sound);
        }
        self.lemma_adds_any(batches, record_size, 0);
        reveal(Staging::sound);
    }
}

} // verus!
