//! The hub of vertex array contexts: one context for each kind of vertex
//! array that the renderer draws with, all on the quad geometry of one base
//! vertex array object.

use vstd::prelude::*;
use crate::context::{ContextSummary, VertexContext, VertexContextRef, CONTEXT_CHUNK_SIZE};
use crate::desc::NamedDescriptor;
use crate::device::{
    new_vao, new_vao_sharing, Device, DeviceCommand, DeviceView, VBOId, VertexUsageHint, VAO,
};
use crate::pool::InstancePool;
use crate::pool_model::PoolView;

verus! {

/// The kinds of vertex array that the renderer draws with.
#[derive(Clone, Copy, Debug, PartialEq, Eq, Structural)]
pub enum VertexArrayKind {
    Primitive,
    Blur,
    ClipImage,
    ClipRect,
    ClipBoxShadow,
    VectorStencil,
    VectorCover,
    Border,
    Scale,
    LineDecoration,
    Gradient,
    Resolve,
    SvgFilter,
    Composite,
    Clear,
}

/// An instance record of `N` 32-bit words, laid out as the layout of its
/// context says.
#[derive(Clone, Copy, Debug, PartialEq, Eq)]
pub struct InstanceWords<const N: usize> {
    pub words: [u32; N],
}

impl<const N: usize> InstanceWords<N> {
    /// Number of bytes that the words of a record take.
    pub open spec fn spec_size_in_bytes() -> nat {
        4 * N as nat
    }
}

/// An instance of a primitive.
pub type PrimitiveInstanceData = InstanceWords<4>;

/// An instance of a blur.
pub type BlurInstance = InstanceWords<2>;

/// An instance of a rectangle clip mask.
pub type ClipMaskInstanceRect = InstanceWords<50>;

/// An instance of a box shadow clip mask.
pub type ClipMaskInstanceBoxShadow = InstanceWords<21>;

/// An instance of an image clip mask.
pub type ClipMaskInstanceImage = InstanceWords<20>;

/// An instance of a border.
pub type BorderInstance = InstanceWords<27>;

/// An instance of a line decoration.
pub type LineDecorationJob = InstanceWords<9>;

/// An instance of a scaling.
pub type ScalingInstance = InstanceWords<9>;

/// An instance of a gradient.
pub type GradientJob = InstanceWords<27>;

/// An instance of an SVG filter.
pub type SvgFilterInstance = InstanceWords<4>;

/// An instance of a composite.
pub type CompositeInstance = InstanceWords<31>;

/// An instance of a clear.
pub type ClearInstance = InstanceWords<8>;

/// The records of each context take as many bytes as the instance attributes
/// of its layout.
pub proof fn lemma_records_fit_layouts()
    ensures
        PrimitiveInstanceData::spec_size_in_bytes()
            == NamedDescriptor::PrimInstances.spec_instance_stride(),
        BlurInstance::spec_size_in_bytes() == NamedDescriptor::Blur.spec_instance_stride(),
        ClipMaskInstanceRect::spec_size_in_bytes()
            == NamedDescriptor::ClipRect.spec_instance_stride(),
        ClipMaskInstanceBoxShadow::spec_size_in_bytes()
            == NamedDescriptor::ClipBoxShadow.spec_instance_stride(),
        ClipMaskInstanceImage::spec_size_in_bytes()
            == NamedDescriptor::ClipImage.spec_instance_stride(),
        BorderInstance::spec_size_in_bytes() == NamedDescriptor::Border.spec_instance_stride(),
        LineDecorationJob::spec_size_in_bytes() == NamedDescriptor::Line.spec_instance_stride(),
        ScalingInstance::spec_size_in_bytes() == NamedDescriptor::Scale.spec_instance_stride(),
        GradientJob::spec_size_in_bytes() == NamedDescriptor::Gradient.spec_instance_stride(),
        SvgFilterInstance::spec_size_in_bytes()
            == NamedDescriptor::SvgFilter.spec_instance_stride(),
        CompositeInstance::spec_size_in_bytes()
            == NamedDescriptor::Composite.spec_instance_stride(),
        ClearInstance::spec_size_in_bytes() == NamedDescriptor::Clear.spec_instance_stride(),
{
}

/// The two triangles of a quad, by the indices of their vertices.
pub const QUAD_INDICES: [u16; 6] = [0, 1, 2, 2, 1, 3];

/// The corners of a quad, each coordinate a normalized byte.
pub const QUAD_VERTICES: [[u8; 2]; 4] = [[0, 0], [0xFF, 0], [0, 0xFF], [0xFF, 0xFF]];

/// Largest number of quads whose vertices can all be told apart by a 16-bit
/// index.
pub const MAX_INDEXED_QUADS: usize = 0x4000;

/// The indices of `count` quads: for the `i`-th quad, the indices of one
/// quad, each raised by `4 * i`.
pub open spec fn spec_quad_indices(count: nat) -> Seq<u16> {
    Seq::new(6 * count, |k: int| (4 * (k / 6) + QUAD_INDICES[k % 6]) as u16)
}

/// The vertices of `count` quads: the corners of one quad, `count` times.
pub open spec fn spec_quad_vertices(count: nat) -> Seq<[u8; 2]> {
    Seq::new(4 * count, |k: int| QUAD_VERTICES[k % 4])
}

/// The indices of `count` quads.
pub fn quad_indices(count: usize) -> (indices: Vec<u16>)
    requires
        count <= MAX_INDEXED_QUADS,
    ensures
        indices@ == spec_quad_indices(count as nat),
{
    let mut indices: Vec<u16> = Vec::new();
    let mut instance: u16 = 0;
    while (instance as usize) < count
        invariant
            instance <= count <= MAX_INDEXED_QUADS,
            indices@ == spec_quad_indices(instance as nat),
        decreases count - instance,
    {
        let ghost before = indices@;
        let mut j: usize = 0;
        while j < 6
            invariant
                j <= 6,
                instance < count <= MAX_INDEXED_QUADS,
                indices@.len() == before.len() + j,
                before == spec_quad_indices(instance as nat),
                forall|k: int| 0 <= k < before.len() ==> indices@[k] == before[k],
                forall|k: int|
                    0 <= k < j ==> indices@[before.len() + k] == (4 * instance + QUAD_INDICES[k]) as u16,
            decreases 6 - j,
        {
            let index: u16 = QUAD_INDICES[j];
            assert(index <= 3);
            indices.push(instance * 4 + index);
            j += 1;
        }
        proof {
            let next = spec_quad_indices((instance + 1) as nat);
            assert(indices@.len() == next.len());
            assert forall|k: int| 0 <= k < next.len() implies indices@[k] == next[k] by {
                if k < before.len() {
                    assert(before[k] == next[k]);
                } else {
                    let offset = k - before.len();
                    assert(k == 6 * instance + offset);
                    assert(k / 6 == instance as int);
                    assert(k % 6 == offset);
                }
            }
            assert(indices@ =~= next);
        }
        instance += 1;
    }
    indices
}

/// The vertices of `count` quads.
pub fn quad_vertices(count: usize) -> (vertices: Vec<[u8; 2]>)
    ensures
        vertices@ == spec_quad_vertices(count as nat),
{
    let mut vertices: Vec<[u8; 2]> = Vec::new();
    let mut instance: usize = 0;
    while instance < count
        invariant
            instance <= count,
            vertices@ == spec_quad_vertices(instance as nat),
        decreases count - instance,
    {
        let ghost before = vertices@;
        vertices.push(QUAD_VERTICES[0]);
        vertices.push(QUAD_VERTICES[1]);
        vertices.push(QUAD_VERTICES[2]);
        vertices.push(QUAD_VERTICES[3]);
        proof {
            let next = spec_quad_vertices((instance + 1) as nat);
            assert(vertices@.len() == next.len());
            assert forall|k: int| 0 <= k < next.len() implies vertices@[k] == next[k] by {
                if k < before.len() {
                    assert(before[k] == next[k]);
                } else {
                    let offset = k - before.len();
                    assert(k == 4 * instance + offset);
                    assert(k % 4 == offset);
                }
            }
            assert(vertices@ =~= next);
        }
        instance += 1;
    }
    vertices
}

/// The layouts of the contexts that share the base vertex array object, in
/// the order in which the contexts are created.
pub open spec fn shared_descriptor(k: int) -> NamedDescriptor {
    if k == 0 {
        NamedDescriptor::Blur
    } else if k == 1 {
        NamedDescriptor::ClipRect
    } else if k == 2 {
        NamedDescriptor::ClipBoxShadow
    } else if k == 3 {
        NamedDescriptor::ClipImage
    } else if k == 4 {
        NamedDescriptor::Border
    } else if k == 5 {
        NamedDescriptor::Scale
    } else if k == 6 {
        NamedDescriptor::Line
    } else if k == 7 {
        NamedDescriptor::Gradient
    } else if k == 8 {
        NamedDescriptor::Resolve
    } else if k == 9 {
        NamedDescriptor::SvgFilter
    } else if k == 10 {
        NamedDescriptor::Composite
    } else {
        NamedDescriptor::Clear
    }
}

/// Number of quads that the base vertex array object holds: as many as
/// asked for with indexed quads, else one, which is drawn once per instance.
pub open spec fn base_quad_count(indexed_quads: Option<usize>) -> nat {
    match indexed_quads {
        Some(count) => count as nat,
        None => 1,
    }
}

/// The divisor that the base vertex array object reads instances with: zero
/// with indexed quads, else one.
pub open spec fn base_instance_divisor(indexed_quads: Option<usize>) -> u32 {
    if indexed_quads is Some {
        0
    } else {
        1
    }
}

/// The base vertex array object of a hub that is created when the device's
/// next handle is `base`.
pub open spec fn base_vao(base: nat, indexed_quads: Option<usize>) -> VAO {
    new_vao(base, NamedDescriptor::PrimInstances, base_instance_divisor(indexed_quads))
}

/// The vertex array object of the `k`-th context that shares the base object
/// of a hub that is created when the device's next handle is `base`.
pub open spec fn shared_vao(base: nat, indexed_quads: Option<usize>, k: int) -> VAO {
    new_vao_sharing((base + 4 + 2 * k) as nat, shared_descriptor(k), base_vao(base, indexed_quads))
}

/// The empty pool of a context that shares the base object.
pub open spec fn shared_pool<T>(indexed_quads: Option<usize>, usage_hint: VertexUsageHint)
    -> PoolView<T> {
    PoolView {
        chunk_size: CONTEXT_CHUNK_SIZE as nat,
        usage_hint,
        duplicate_per_vertex: indexed_quads is Some,
        epoch: 0,
        used: Seq::empty(),
        chunks: Seq::empty(),
        mapped: Seq::empty(),
        ready: Seq::empty(),
    }
}

/// The empty pool of the primitive context: with indexed quads, its chunks
/// hold half as many slots as there are quads, and instances are duplicated
/// per vertex; else every batch gets a buffer of its own.
pub open spec fn primitive_pool<T>(indexed_quads: Option<usize>, usage_hint: VertexUsageHint)
    -> PoolView<T> {
    PoolView {
        chunk_size: match indexed_quads {
            Some(count) => (count / 2) as nat,
            None => 0,
        },
        usage_hint,
        duplicate_per_vertex: indexed_quads is Some,
        epoch: 0,
        used: Seq::empty(),
        chunks: Seq::empty(),
        mapped: Seq::empty(),
        ready: Seq::empty(),
    }
}

/// Whether `issued` are the commands that a new hub issues on a device whose
/// next handle is `base`: the base object is created and bound, its indices
/// and vertices are filled with the quads, and the twelve contexts that share
/// it are created in their order.
pub open spec fn hub_commands(
    issued: Seq<DeviceCommand>,
    base: nat,
    indexed_quads: Option<usize>,
) -> bool {
    let vao = base_vao(base, indexed_quads);
    &&& issued.len() == 16
    &&& issued[0] == (DeviceCommand::CreateVao { vao, descriptor: NamedDescriptor::PrimInstances })
    &&& issued[1] == (DeviceCommand::BindVao { vao_id: vao.id })
    &&& issued[2] matches DeviceCommand::UpdateVaoIndices { vao_id, indices, usage_hint }
    &&& vao_id == vao.id
    &&& indices@ == spec_quad_indices(base_quad_count(indexed_quads))
    &&& usage_hint == VertexUsageHint::Static
    &&& issued[3] matches DeviceCommand::UpdateVaoMainVertices { vao_id, vertices, usage_hint }
    &&& vao_id == vao.id
    &&& vertices@ == spec_quad_vertices(base_quad_count(indexed_quads))
    &&& usage_hint == VertexUsageHint::Static
    &&& forall|k: int|
        0 <= k < 12 ==> #[trigger] issued[k + 4] == (DeviceCommand::CreateVaoWithNewInstances {
            vao: shared_vao(base, indexed_quads, k),
            descriptor: shared_descriptor(k),
        })
}

/// One context for each kind of vertex array.
pub struct VertexContextHub {
    pub prim: VertexContext<PrimitiveInstanceData>,
    pub blur: VertexContext<BlurInstance>,
    pub clip_rect: VertexContext<ClipMaskInstanceRect>,
    pub clip_box_shadow: VertexContext<ClipMaskInstanceBoxShadow>,
    pub clip_image: VertexContext<ClipMaskInstanceImage>,
    pub border: VertexContext<BorderInstance>,
    pub line: VertexContext<LineDecorationJob>,
    pub scale: VertexContext<ScalingInstance>,
    pub gradient: VertexContext<GradientJob>,
    pub resolve: VertexContext<()>,
    pub svg_filter: VertexContext<SvgFilterInstance>,
    pub composite: VertexContext<CompositeInstance>,
    pub clear: VertexContext<ClearInstance>,
}

impl VertexContextHub {
    /// Every context is well-formed.
    pub open spec fn wf(&self) -> bool {
        &&& self.prim.wf()
        &&& self.blur.wf()
        &&& self.clip_rect.wf()
        &&& self.clip_box_shadow.wf()
        &&& self.clip_image.wf()
        &&& self.border.wf()
        &&& self.line.wf()
        &&& self.scale.wf()
        &&& self.gradient.wf()
        &&& self.resolve.wf()
        &&& self.svg_filter.wf()
        &&& self.composite.wf()
        &&& self.clear.wf()
    }

    /// Whether the hub has a context for the kind: it has one for every kind
    /// but the two vector kinds.
    pub open spec fn serves(kind: VertexArrayKind) -> bool {
        kind != VertexArrayKind::VectorStencil && kind != VertexArrayKind::VectorCover
    }

    /// What the context for `kind` is when drawing.
    pub open spec fn summary(&self, kind: VertexArrayKind) -> ContextSummary {
        match kind {
            VertexArrayKind::Primitive => self.prim.summary(),
            VertexArrayKind::ClipImage => self.clip_image.summary(),
            VertexArrayKind::ClipRect => self.clip_rect.summary(),
            VertexArrayKind::ClipBoxShadow => self.clip_box_shadow.summary(),
            VertexArrayKind::Blur => self.blur.summary(),
            VertexArrayKind::Border => self.border.summary(),
            VertexArrayKind::Scale => self.scale.summary(),
            VertexArrayKind::LineDecoration => self.line.summary(),
            VertexArrayKind::Gradient => self.gradient.summary(),
            VertexArrayKind::Resolve => self.resolve.summary(),
            VertexArrayKind::SvgFilter => self.svg_filter.summary(),
            VertexArrayKind::Composite => self.composite.summary(),
            VertexArrayKind::Clear => self.clear.summary(),
            VertexArrayKind::VectorStencil => arbitrary(),
            VertexArrayKind::VectorCover => arbitrary(),
        }
    }

    /// Whether `later` is this hub with the context for `kind` reading from
    /// `buffer` at present, and all else as it is.
    pub open spec fn rebound(
        &self,
        later: &Self,
        kind: VertexArrayKind,
        buffer: VBOId,
    ) -> bool {
        &&& if kind == VertexArrayKind::Primitive {
            self.prim.rebound(&later.prim, buffer)
        } else {
            later.prim == self.prim
        }
        &&& if kind == VertexArrayKind::Blur {
            self.blur.rebound(&later.blur, buffer)
        } else {
            later.blur == self.blur
        }
        &&& if kind == VertexArrayKind::ClipRect {
            self.clip_rect.rebound(&later.clip_rect, buffer)
        } else {
            later.clip_rect == self.clip_rect
        }
        &&& if kind == VertexArrayKind::ClipBoxShadow {
            self.clip_box_shadow.rebound(&later.clip_box_shadow, buffer)
        } else {
            later.clip_box_shadow == self.clip_box_shadow
        }
        &&& if kind == VertexArrayKind::ClipImage {
            self.clip_image.rebound(&later.clip_image, buffer)
        } else {
            later.clip_image == self.clip_image
        }
        &&& if kind == VertexArrayKind::Border {
            self.border.rebound(&later.border, buffer)
        } else {
            later.border == self.border
        }
        &&& if kind == VertexArrayKind::LineDecoration {
            self.line.rebound(&later.line, buffer)
        } else {
            later.line == self.line
        }
        &&& if kind == VertexArrayKind::Scale {
            self.scale.rebound(&later.scale, buffer)
        } else {
            later.scale == self.scale
        }
        &&& if kind == VertexArrayKind::Gradient {
            self.gradient.rebound(&later.gradient, buffer)
        } else {
            later.gradient == self.gradient
        }
        &&& if kind == VertexArrayKind::Resolve {
            self.resolve.rebound(&later.resolve, buffer)
        } else {
            later.resolve == self.resolve
        }
        &&& if kind == VertexArrayKind::SvgFilter {
            self.svg_filter.rebound(&later.svg_filter, buffer)
        } else {
            later.svg_filter == self.svg_filter
        }
        &&& if kind == VertexArrayKind::Composite {
            self.composite.rebound(&later.composite, buffer)
        } else {
            later.composite == self.composite
        }
        &&& if kind == VertexArrayKind::Clear {
            self.clear.rebound(&later.clear, buffer)
        } else {
            later.clear == self.clear
        }
    }

    /// Whether this is the hub that `new` makes on a device whose next
    /// handle is `base`: each context has its vertex array object, reads from
    /// that object's own instance buffer, and has an empty pool.
    pub open spec fn is_new(
        &self,
        base: nat,
        indexed_quads: Option<usize>,
        usage_hint: VertexUsageHint,
    ) -> bool {
        &&& self.prim.is_new(
            base_vao(base, indexed_quads),
            NamedDescriptor::PrimInstances,
            primitive_pool(indexed_quads, usage_hint),
        )
        &&& self.blur.is_new(
            shared_vao(base, indexed_quads, 0),
            shared_descriptor(0),
            shared_pool(indexed_quads, usage_hint),
        )
        &&& self.clip_rect.is_new(
            shared_vao(base, indexed_quads, 1),
            shared_descriptor(1),
            shared_pool(indexed_quads, usage_hint),
        )
        &&& self.clip_box_shadow.is_new(
            shared_vao(base, indexed_quads, 2),
            shared_descriptor(2),
            shared_pool(indexed_quads, usage_hint),
        )
        &&& self.clip_image.is_new(
            shared_vao(base, indexed_quads, 3),
            shared_descriptor(3),
            shared_pool(indexed_quads, usage_hint),
        )
        &&& self.border.is_new(
            shared_vao(base, indexed_quads, 4),
            shared_descriptor(4),
            shared_pool(indexed_quads, usage_hint),
        )
        &&& self.scale.is_new(
            shared_vao(base, indexed_quads, 5),
            shared_descriptor(5),
            shared_pool(indexed_quads, usage_hint),
        )
        &&& self.line.is_new(
            shared_vao(base, indexed_quads, 6),
            shared_descriptor(6),
            shared_pool(indexed_quads, usage_hint),
        )
        &&& self.gradient.is_new(
            shared_vao(base, indexed_quads, 7),
            shared_descriptor(7),
            shared_pool(indexed_quads, usage_hint),
        )
        &&& self.resolve.is_new(
            shared_vao(base, indexed_quads, 8),
            shared_descriptor(8),
            shared_pool(indexed_quads, usage_hint),
        )
        &&& self.svg_filter.is_new(
            shared_vao(base, indexed_quads, 9),
            shared_descriptor(9),
            shared_pool(indexed_quads, usage_hint),
        )
        &&& self.composite.is_new(
            shared_vao(base, indexed_quads, 10),
            shared_descriptor(10),
            shared_pool(indexed_quads, usage_hint),
        )
        &&& self.clear.is_new(
            shared_vao(base, indexed_quads, 11),
            shared_descriptor(11),
            shared_pool(indexed_quads, usage_hint),
        )
    }

    /// A hub of contexts on a new base vertex array object.
    ///
    /// With `indexed_quads`, the base object holds that many quads, instances
    /// are read once per vertex, and every pool duplicates instances per
    /// vertex. Without, it holds one quad and instances are read once per
    /// instance. The base object takes the device's next four handles and
    /// each of the twelve contexts that share it the next two.
    pub fn new(device: &mut Device, indexed_quads: Option<usize>, usage_hint: VertexUsageHint) -> (hub:
        Self)
        requires
            indexed_quads matches Some(count) ==> 0 < count <= MAX_INDEXED_QUADS,
        ensures
            hub.wf(),
            hub.is_new(old(device)@.next_handle(), indexed_quads, usage_hint),
            final(device)@.live == old(device)@.live + Seq::new(28, |i: int| true),
            old(device)@.commands.is_prefix_of(final(device)@.commands),
            hub_commands(
                final(device)@.commands.skip(old(device)@.commands.len() as int),
                old(device)@.next_handle(),
                indexed_quads,
            ),
    {
        let ghost base = device@.next_handle();
        let ghost before = device@.commands;
        let instance_divisor: u32 = if indexed_quads.is_some() {
            0
        } else {
            1
        };
        let prim_vao = device.create_vao(NamedDescriptor::PrimInstances, instance_divisor);

        device.bind_vao(&prim_vao);
        match indexed_quads {
            Some(count) => {
                device.update_vao_indices(&prim_vao, quad_indices(count), VertexUsageHint::Static);
                device.update_vao_main_vertices(
                    &prim_vao,
                    quad_vertices(count),
                    VertexUsageHint::Static,
                );
            },
            None => {
                device.update_vao_indices(&prim_vao, quad_indices(1), VertexUsageHint::Static);
                device.update_vao_main_vertices(
                    &prim_vao,
                    quad_vertices(1),
                    VertexUsageHint::Static,
                );
            },
        }

        let blur = VertexContext::new(device, NamedDescriptor::Blur, &prim_vao, usage_hint);
        let clip_rect = VertexContext::new(device, NamedDescriptor::ClipRect, &prim_vao, usage_hint);
        let clip_box_shadow = VertexContext::new(
            device,
            NamedDescriptor::ClipBoxShadow,
            &prim_vao,
            usage_hint,
        );
        let clip_image = VertexContext::new(
            device,
            NamedDescriptor::ClipImage,
            &prim_vao,
            usage_hint,
        );
        let border = VertexContext::new(device, NamedDescriptor::Border, &prim_vao, usage_hint);
        let scale = VertexContext::new(device, NamedDescriptor::Scale, &prim_vao, usage_hint);
        let line = VertexContext::new(device, NamedDescriptor::Line, &prim_vao, usage_hint);
        let gradient = VertexContext::new(device, NamedDescriptor::Gradient, &prim_vao, usage_hint);
        let resolve = VertexContext::new(device, NamedDescriptor::Resolve, &prim_vao, usage_hint);
        let svg_filter = VertexContext::new(
            device,
            NamedDescriptor::SvgFilter,
            &prim_vao,
            usage_hint,
        );
        let composite = VertexContext::new(
            device,
            NamedDescriptor::Composite,
            &prim_vao,
            usage_hint,
        );
        let clear = VertexContext::new(device, NamedDescriptor::Clear, &prim_vao, usage_hint);
        let chunk_size: usize = match indexed_quads {
            Some(count) => count / 2,
            None => 0,
        };
        let prim = VertexContext::from_parts(
            prim_vao,
            InstancePool::new(chunk_size, usage_hint, indexed_quads.is_some()),
            NamedDescriptor::PrimInstances,
        );
        proof {
            assert(device@.live =~= old(device)@.live + Seq::new(28, |i: int| true));
            let issued = device@.commands.skip(before.len() as int);
            assert(issued.len() == 16);
            let n: int = before.len() as int;
            assert(issued[4int] == device@.commands[n + 4]);
            assert(issued[5int] == device@.commands[n + 5]);
            assert(issued[6int] == device@.commands[n + 6]);
            assert(issued[7int] == device@.commands[n + 7]);
            assert(issued[8int] == device@.commands[n + 8]);
            assert(issued[9int] == device@.commands[n + 9]);
            assert(issued[10int] == device@.commands[n + 10]);
            assert(issued[11int] == device@.commands[n + 11]);
            assert(issued[12int] == device@.commands[n + 12]);
            assert(issued[13int] == device@.commands[n + 13]);
            assert(issued[14int] == device@.commands[n + 14]);
            assert(issued[15int] == device@.commands[n + 15]);
        }
        VertexContextHub {
            prim,
            blur,
            clip_rect,
            clip_box_shadow,
            clip_image,
            border,
            line,
            scale,
            gradient,
            resolve,
            svg_filter,
            composite,
            clear,
        }
    }

    /// The device after `deinit`: the contexts are given up one after
    /// another, the primitive context first.
    pub open spec fn device_after_deinit(&self, device: DeviceView) -> DeviceView {
        let d = self.prim.device_after_deinit(device);
        let d = self.resolve.device_after_deinit(d);
        let d = self.clip_rect.device_after_deinit(d);
        let d = self.clip_box_shadow.device_after_deinit(d);
        let d = self.clip_image.device_after_deinit(d);
        let d = self.gradient.device_after_deinit(d);
        let d = self.blur.device_after_deinit(d);
        let d = self.line.device_after_deinit(d);
        let d = self.border.device_after_deinit(d);
        let d = self.scale.device_after_deinit(d);
        let d = self.svg_filter.device_after_deinit(d);
        let d = self.composite.device_after_deinit(d);
        self.clear.device_after_deinit(d)
    }

    /// No pool has used up its epochs.
    pub open spec fn can_reset(&self) -> bool {
        &&& self.prim.pool()@.epoch < u64::MAX
        &&& self.resolve.pool()@.epoch < u64::MAX
        &&& self.clip_rect.pool()@.epoch < u64::MAX
        &&& self.clip_box_shadow.pool()@.epoch < u64::MAX
        &&& self.clip_image.pool()@.epoch < u64::MAX
        &&& self.gradient.pool()@.epoch < u64::MAX
        &&& self.blur.pool()@.epoch < u64::MAX
        &&& self.line.pool()@.epoch < u64::MAX
        &&& self.border.pool()@.epoch < u64::MAX
        &&& self.scale.pool()@.epoch < u64::MAX
        &&& self.svg_filter.pool()@.epoch < u64::MAX
        &&& self.composite.pool()@.epoch < u64::MAX
        &&& self.clear.pool()@.epoch < u64::MAX
    }

    /// No chunk of any pool is mapped.
    pub open spec fn nothing_mapped(&self) -> bool {
        &&& self.prim.pool()@.mapped.len() == 0
        &&& self.resolve.pool()@.mapped.len() == 0
        &&& self.clip_rect.pool()@.mapped.len() == 0
        &&& self.clip_box_shadow.pool()@.mapped.len() == 0
        &&& self.clip_image.pool()@.mapped.len() == 0
        &&& self.gradient.pool()@.mapped.len() == 0
        &&& self.blur.pool()@.mapped.len() == 0
        &&& self.line.pool()@.mapped.len() == 0
        &&& self.border.pool()@.mapped.len() == 0
        &&& self.scale.pool()@.mapped.len() == 0
        &&& self.svg_filter.pool()@.mapped.len() == 0
        &&& self.composite.pool()@.mapped.len() == 0
        &&& self.clear.pool()@.mapped.len() == 0
    }

    /// Where no chunk of any pool is mapped, every context that the hub has
    /// can be handed out for drawing.
    pub proof fn lemma_ready_to_draw(&self, kind: VertexArrayKind)
        requires
            self.nothing_mapped(),
            Self::serves(kind),
        ensures
            self.summary(kind).mapped == 0,
    {
    }

    /// Gives up every context, as `VertexContext::deinit` does.
    pub fn deinit(self, device: &mut Device)
        requires
            self.wf(),
        ensures
            final(device)@ == self.device_after_deinit(old(device)@),
    {
        self.prim.deinit(device);
        self.resolve.deinit(device);
        self.clip_rect.deinit(device);
        self.clip_box_shadow.deinit(device);
        self.clip_image.deinit(device);
        self.gradient.deinit(device);
        self.blur.deinit(device);
        self.line.deinit(device);
        self.border.deinit(device);
        self.scale.deinit(device);
        self.svg_filter.deinit(device);
        self.composite.deinit(device);
        self.clear.deinit(device);
    }

    /// The context for `kind`, as it is when drawing. The hub has none for
    /// the two vector kinds, and the pool of the context must have no chunk
    /// mapped any more.
    pub fn get(&mut self, kind: VertexArrayKind) -> (context: VertexContextRef<'_>)
        requires
            Self::serves(kind),
            old(self).summary(kind).mapped == 0,
        ensures
            context.shows(old(self).summary(kind)),
            old(self).rebound(final(self), kind, *final(context.current_instance_buffer)),
    {
        match kind {
            VertexArrayKind::Primitive => self.prim.to_ref(),
            VertexArrayKind::ClipImage => self.clip_image.to_ref(),
            VertexArrayKind::ClipRect => self.clip_rect.to_ref(),
            VertexArrayKind::ClipBoxShadow => self.clip_box_shadow.to_ref(),
            VertexArrayKind::Blur => self.blur.to_ref(),
            VertexArrayKind::VectorStencil | VertexArrayKind::VectorCover => unreached(),
            VertexArrayKind::Border => self.border.to_ref(),
            VertexArrayKind::Scale => self.scale.to_ref(),
            VertexArrayKind::LineDecoration => self.line.to_ref(),
            VertexArrayKind::Gradient => self.gradient.to_ref(),
            VertexArrayKind::Resolve => self.resolve.to_ref(),
            VertexArrayKind::SvgFilter => self.svg_filter.to_ref(),
            VertexArrayKind::Composite => self.composite.to_ref(),
            VertexArrayKind::Clear => self.clear.to_ref(),
        }
    }

    /// Resets the pool of every context: a new frame begins, and the ranges
    /// of the frame before are over.
    pub fn reset_instance_pools(&mut self)
        requires
            old(self).wf(),
            old(self).nothing_mapped(),
            old(self).can_reset(),
        ensures
            final(self).wf(),
            old(self).prim.with_pool(&final(self).prim, old(self).prim.pool()@.after_reset()),
            old(self).resolve.with_pool(
                &final(self).resolve,
                old(self).resolve.pool()@.after_reset(),
            ),
            old(self).clip_rect.with_pool(
                &final(self).clip_rect,
                old(self).clip_rect.pool()@.after_reset(),
            ),
            old(self).clip_box_shadow.with_pool(
                &final(self).clip_box_shadow,
                old(self).clip_box_shadow.pool()@.after_reset(),
            ),
            old(self).clip_image.with_pool(
                &final(self).clip_image,
                old(self).clip_image.pool()@.after_reset(),
            ),
            old(self).gradient.with_pool(
                &final(self).gradient,
                old(self).gradient.pool()@.after_reset(),
            ),
            old(self).blur.with_pool(&final(self).blur, old(self).blur.pool()@.after_reset()),
            old(self).line.with_pool(&final(self).line, old(self).line.pool()@.after_reset()),
            old(self).border.with_pool(&final(self).border, old(self).border.pool()@.after_reset()),
            old(self).scale.with_pool(&final(self).scale, old(self).scale.pool()@.after_reset()),
            old(self).svg_filter.with_pool(
                &final(self).svg_filter,
                old(self).svg_filter.pool()@.after_reset(),
            ),
            old(self).composite.with_pool(
                &final(self).composite,
                old(self).composite.pool()@.after_reset(),
            ),
            old(self).clear.with_pool(&final(self).clear, old(self).clear.pool()@.after_reset()),
    {
        self.prim.reset_instance_pool();
        self.resolve.reset_instance_pool();
        self.clip_rect.reset_instance_pool();
        self.clip_box_shadow.reset_instance_pool();
        self.clip_image.reset_instance_pool();
        self.gradient.reset_instance_pool();
        self.blur.reset_instance_pool();
        self.line.reset_instance_pool();
        self.border.reset_instance_pool();
        self.scale.reset_instance_pool();
        self.svg_filter.reset_instance_pool();
        self.composite.reset_instance_pool();
        self.clear.reset_instance_pool();
    }

    /// The commands that `finish_populating_instances` issues: those of each
    /// pool's `finish`, the primitive context first.
    pub open spec fn finish_commands(&self) -> Seq<DeviceCommand> {
        self.prim.pool()@.finish_commands() + self.resolve.pool()@.finish_commands()
            + self.clip_rect.pool()@.finish_commands()
            + self.clip_box_shadow.pool()@.finish_commands()
            + self.clip_image.pool()@.finish_commands() + self.gradient.pool()@.finish_commands()
            + self.blur.pool()@.finish_commands() + self.line.pool()@.finish_commands()
            + self.border.pool()@.finish_commands() + self.scale.pool()@.finish_commands()
            + self.svg_filter.pool()@.finish_commands() + self.composite.pool()@.finish_commands()
            + self.clear.pool()@.finish_commands()
    }

    /// Unmaps every chunk of every pool that is still mapped. The contexts
    /// can be drawn with afterwards.
    pub fn finish_populating_instances(&mut self, device: &mut Device)
        requires
            old(self).wf(),
        ensures
            final(self).wf(),
            final(self).nothing_mapped(),
            old(self).prim.with_pool(&final(self).prim, old(self).prim.pool()@.after_finish()),
            old(self).resolve.with_pool(
                &final(self).resolve,
                old(self).resolve.pool()@.after_finish(),
            ),
            old(self).clip_rect.with_pool(
                &final(self).clip_rect,
                old(self).clip_rect.pool()@.after_finish(),
            ),
            old(self).clip_box_shadow.with_pool(
                &final(self).clip_box_shadow,
                old(self).clip_box_shadow.pool()@.after_finish(),
            ),
            old(self).clip_image.with_pool(
                &final(self).clip_image,
                old(self).clip_image.pool()@.after_finish(),
            ),
            old(self).gradient.with_pool(
                &final(self).gradient,
                old(self).gradient.pool()@.after_finish(),
            ),
            old(self).blur.with_pool(&final(self).blur, old(self).blur.pool()@.after_finish()),
            old(self).line.with_pool(&final(self).line, old(self).line.pool()@.after_finish()),
            old(self).border.with_pool(&final(self).border, old(self).border.pool()@.after_finish()),
            old(self).scale.with_pool(&final(self).scale, old(self).scale.pool()@.after_finish()),
            old(self).svg_filter.with_pool(
                &final(self).svg_filter,
                old(self).svg_filter.pool()@.after_finish(),
            ),
            old(self).composite.with_pool(
                &final(self).composite,
                old(self).composite.pool()@.after_finish(),
            ),
            old(self).clear.with_pool(&final(self).clear, old(self).clear.pool()@.after_finish()),
            final(device)@.commands == old(device)@.commands + old(self).finish_commands(),
            final(device)@.live == old(device)@.live,
    {
        self.prim.finish_populating_instances(device);
        self.resolve.finish_populating_instances(device);
        self.clip_rect.finish_populating_instances(device);
        self.clip_box_shadow.finish_populating_instances(device);
        self.clip_image.finish_populating_instances(device);
        self.gradient.finish_populating_instances(device);
        self.blur.finish_populating_instances(device);
        self.line.finish_populating_instances(device);
        self.border.finish_populating_instances(device);
        self.scale.finish_populating_instances(device);
        self.svg_filter.finish_populating_instances(device);
        self.composite.finish_populating_instances(device);
        self.clear.finish_populating_instances(device);
        proof {
            assert(device@.commands =~= old(device)@.commands + old(self).finish_commands());
        }
    }
}

} // verus!
