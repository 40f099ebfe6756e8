//! Vertex layout descriptors: the attribute streams that a vertex array object
//! binds to shader inputs.

use vstd::prelude::*;

verus! {

/// Storage type of the components of a vertex attribute.
#[derive(Clone, Copy, Debug, PartialEq, Eq, Structural)]
pub enum VertexAttributeKind {
    F32,
    I32,
    U16,
    U16Norm,
    U8Norm,
}

impl VertexAttributeKind {
    /// Size in bytes of one component of this kind.
    pub open spec fn spec_size_in_bytes(self) -> nat {
        match self {
            VertexAttributeKind::F32 => 4,
            VertexAttributeKind::I32 => 4,
            VertexAttributeKind::U16 => 2,
            VertexAttributeKind::U16Norm => 2,
            VertexAttributeKind::U8Norm => 1,
        }
    }

    /// Size in bytes of one component of this kind.
    pub fn size_in_bytes(self) -> (size: u32)
        ensures
            size == self.spec_size_in_bytes(),
    {
        match self {
            VertexAttributeKind::F32 => 4,
            VertexAttributeKind::I32 => 4,
            VertexAttributeKind::U16 => 2,
            VertexAttributeKind::U16Norm => 2,
            VertexAttributeKind::U8Norm => 1,
        }
    }
}

/// One attribute of a vertex layout: the shader input it binds to, how many
/// components it has, and how they are stored.
#[derive(Clone, Copy, Debug)]
pub struct VertexAttribute {
    pub name: &'static str,
    pub count: u32,
    pub kind: VertexAttributeKind,
}

impl VertexAttribute {
    /// An attribute has between one and four components.
    pub open spec fn wf(self) -> bool {
        1 <= self.count <= 4
    }

    /// Size in bytes of the attribute: its component count times the size of
    /// one component.
    pub open spec fn spec_size_in_bytes(self) -> nat {
        match self.kind {
            VertexAttributeKind::F32 => 4 * self.count as nat,
            VertexAttributeKind::I32 => 4 * self.count as nat,
            VertexAttributeKind::U16 => 2 * self.count as nat,
            VertexAttributeKind::U16Norm => 2 * self.count as nat,
            VertexAttributeKind::U8Norm => self.count as nat,
        }
    }

    /// The size of an attribute is its component count times the size of one
    /// component.
    pub proof fn lemma_size_in_bytes(self)
        ensures
            self.spec_size_in_bytes() == self.count * self.kind.spec_size_in_bytes(),
    {
    }

    /// Size in bytes of the attribute.
    pub fn size_in_bytes(&self) -> (size: u32)
        requires
            self.wf(),
        ensures
            size == self.spec_size_in_bytes(),
            size <= 16,
    {
        self.count * self.kind.size_in_bytes()
    }
}

/// Sum of the sizes in bytes of the first `count` of the attributes.
pub open spec fn attributes_size_up_to(attributes: Seq<VertexAttribute>, count: nat) -> nat
    decreases count,
{
    if count == 0 {
        0
    } else {
        attributes_size_up_to(attributes, (count - 1) as nat) + attributes[count
            - 1].spec_size_in_bytes()
    }
}

/// Sum of the sizes in bytes of a sequence of attributes.
pub open spec fn attributes_size(attributes: Seq<VertexAttribute>) -> nat {
    attributes_size_up_to(attributes, attributes.len())
}

/// A vertex layout: the attributes read once per vertex and the attributes
/// read once per instance.
#[derive(Debug)]
pub struct VertexDescriptor {
    pub vertex_attributes: Vec<VertexAttribute>,
    pub instance_attributes: Vec<VertexAttribute>,
}

impl VertexDescriptor {
    /// Every attribute of the descriptor is well-formed.
    pub open spec fn wf(&self) -> bool {
        &&& forall|i: int|
            0 <= i < self.vertex_attributes@.len() ==> (#[trigger] self.vertex_attributes@[i]).wf()
        &&& forall|i: int|
            0 <= i < self.instance_attributes@.len() ==> (
            #[trigger] self.instance_attributes@[i]).wf()
    }

    /// Distance in bytes between two consecutive instance records.
    pub open spec fn spec_instance_stride(&self) -> nat {
        attributes_size(self.instance_attributes@)
    }

    /// Distance in bytes between two consecutive instance records: the sum of
    /// the sizes of the instance attributes.
    pub fn instance_stride(&self) -> (stride: u32)
        requires
            self.wf(),
            16 * self.instance_attributes@.len() <= u32::MAX,
        ensures
            stride == self.spec_instance_stride(),
    {
        let mut stride: u32 = 0;
        let mut i: usize = 0;
        while i < self.instance_attributes.len()
            invariant
                i <= self.instance_attributes@.len(),
                self.wf(),
                16 * self.instance_attributes@.len() <= u32::MAX,
                stride == attributes_size_up_to(self.instance_attributes@, i as nat),
                stride <= 16 * i,
            decreases self.instance_attributes@.len() - i,
        {
            let size: u32 = self.instance_attributes[i].size_in_bytes();
            stride = stride + size;
            i += 1;
        }
        stride
    }
}

/// The closed set of vertex layouts that the renderer draws with.
#[derive(Clone, Copy, Debug, PartialEq, Eq, Structural)]
pub enum NamedDescriptor {
    PrimInstances,
    Blur,
    Line,
    Gradient,
    Border,
    Scale,
    ClipRect,
    ClipBoxShadow,
    ClipImage,
    GpuCacheUpdate,
    Resolve,
    SvgFilter,
    VectorStencil,
    VectorCover,
    Composite,
    Clear,
}

impl NamedDescriptor {
    /// Distance in bytes between two consecutive instance records of the
    /// layout.
    pub open spec fn spec_instance_stride(self) -> nat {
        match self {
            NamedDescriptor::PrimInstances => 16,
            NamedDescriptor::Blur => 8,
            NamedDescriptor::Line => 36,
            NamedDescriptor::Gradient => 108,
            NamedDescriptor::Border => 108,
            NamedDescriptor::Scale => 36,
            NamedDescriptor::ClipRect => 200,
            NamedDescriptor::ClipBoxShadow => 84,
            NamedDescriptor::ClipImage => 80,
            NamedDescriptor::GpuCacheUpdate => 0,
            NamedDescriptor::Resolve => 16,
            NamedDescriptor::SvgFilter => 16,
            NamedDescriptor::VectorStencil => 52,
            NamedDescriptor::VectorCover => 28,
            NamedDescriptor::Composite => 124,
            NamedDescriptor::Clear => 32,
        }
    }

    /// Distance in bytes between two consecutive instance records of the
    /// layout.
    pub fn instance_stride(self) -> (stride: usize)
        ensures
            stride == self.spec_instance_stride(),
    {
        match self {
            NamedDescriptor::PrimInstances => 16,
            NamedDescriptor::Blur => 8,
            NamedDescriptor::Line => 36,
            NamedDescriptor::Gradient => 108,
            NamedDescriptor::Border => 108,
            NamedDescriptor::Scale => 36,
            NamedDescriptor::ClipRect => 200,
            NamedDescriptor::ClipBoxShadow => 84,
            NamedDescriptor::ClipImage => 80,
            NamedDescriptor::GpuCacheUpdate => 0,
            NamedDescriptor::Resolve => 16,
            NamedDescriptor::SvgFilter => 16,
            NamedDescriptor::VectorStencil => 52,
            NamedDescriptor::VectorCover => 28,
            NamedDescriptor::Composite => 124,
            NamedDescriptor::Clear => 32,
        }
    }
}

} // verus!
