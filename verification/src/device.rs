//! The recording device: the GPU device as the staging code sees it.
//!
//! A `Device` hands out handles for buffers, vertex array objects and textures,
//! and keeps the list of commands issued to it, in order. Nothing here touches
//! a GPU. A backend takes the commands with `take_commands` and carries them
//! out; the contracts of the staging code say exactly which commands it issues.

use vstd::prelude::*;
use webrender_api::units::DeviceIntRect;
use crate::desc::NamedDescriptor;

verus! {

/// Handle of a vertex buffer object.
#[derive(Clone, Copy, Debug, PartialEq, Eq, Structural)]
pub struct VBOId(pub usize);

/// Handle of an index buffer object.
#[derive(Clone, Copy, Debug, PartialEq, Eq, Structural)]
pub struct IBOId(pub usize);

/// Handle of a vertex array object.
#[derive(Clone, Copy, Debug, PartialEq, Eq, Structural)]
pub struct VAOId(pub usize);

/// Handle of a texture.
#[derive(Clone, Copy, Debug, PartialEq, Eq, Structural)]
pub struct TextureId(pub usize);

/// How often the contents of a buffer are expected to change.
#[derive(Clone, Copy, Debug, PartialEq, Eq, Structural)]
pub enum VertexUsageHint {
    Static,
    Dynamic,
    Stream,
}

/// How a texture is sampled.
#[derive(Clone, Copy, Debug, PartialEq, Eq, Structural)]
pub enum TextureFilter {
    Nearest,
    Linear,
    Trilinear,
}

/// The kind of texture object behind a texture handle.
#[derive(Clone, Copy, Debug, PartialEq, Eq, Structural)]
pub enum ImageBufferKind {
    Texture2D,
    TextureRect,
    TextureExternal,
    TextureExternalBT709,
}

/// Storage format of the texels of a texture.
#[derive(Clone, Copy, Debug, PartialEq, Eq, Structural)]
pub enum ImageFormat {
    R8,
    R16,
    BGRA8,
    RGBAF32,
    RG8,
    RG16,
    RGBAI32,
    RGBA8,
}

impl ImageFormat {
    /// Number of bytes that one texel of this format takes.
    pub open spec fn spec_bytes_per_pixel(self) -> int {
        match self {
            ImageFormat::R8 => 1,
            ImageFormat::R16 => 2,
            ImageFormat::BGRA8 => 4,
            ImageFormat::RGBAF32 => 16,
            ImageFormat::RG8 => 2,
            ImageFormat::RG16 => 4,
            ImageFormat::RGBAI32 => 16,
            ImageFormat::RGBA8 => 4,
        }
    }

    /// Number of bytes that one texel of this format takes.
    pub fn bytes_per_pixel(self) -> (bytes: i32)
        ensures
            bytes == self.spec_bytes_per_pixel(),
    {
        api_bytes_per_pixel(self)
    }
}

/// Calls `webrender_api::ImageFormat::bytes_per_pixel` on the format of the
/// same name.
///
/// Unverified: the contract restates the table that the method matches on,
/// one size per format.
#[verifier::external_body]
fn api_bytes_per_pixel(format: ImageFormat) -> (bytes: i32)
    ensures
        bytes == format.spec_bytes_per_pixel(),
{
    let api_format = match format {
        ImageFormat::R8 => webrender_api::ImageFormat::R8,
        ImageFormat::R16 => webrender_api::ImageFormat::R16,
        ImageFormat::BGRA8 => webrender_api::ImageFormat::BGRA8,
        ImageFormat::RGBAF32 => webrender_api::ImageFormat::RGBAF32,
        ImageFormat::RG8 => webrender_api::ImageFormat::RG8,
        ImageFormat::RG16 => webrender_api::ImageFormat::RG16,
        ImageFormat::RGBAI32 => webrender_api::ImageFormat::RGBAI32,
        ImageFormat::RGBA8 => webrender_api::ImageFormat::RGBA8,
    };
    api_format.bytes_per_pixel()
}

/// The samplers that vertex data textures are bound to.
#[derive(Clone, Copy, Debug, PartialEq, Eq, Structural)]
pub enum TextureSampler {
    PrimitiveHeadersF,
    PrimitiveHeadersI,
    TransformPalette,
    RenderTasks,
}

/// Order in which the channels of a texture reach the shader.
#[derive(Clone, Copy, Debug, PartialEq, Eq, Structural)]
pub enum Swizzle {
    Rgba,
    Bgra,
}

impl Default for Swizzle {
    fn default() -> (swizzle: Swizzle)
        ensures
            swizzle == Swizzle::Rgba,
    {
        Swizzle::Rgba
    }
}

/// A vertex array object: the buffers it reads and how it steps through the
/// instance buffer.
#[derive(Clone, Copy, Debug, PartialEq, Eq, Structural)]
pub struct VAO {
    pub id: VAOId,
    pub ibo_id: IBOId,
    pub main_vbo_id: VBOId,
    pub instance_vbo_id: VBOId,
    pub instance_stride: usize,
    pub instance_divisor: u32,
    pub owns_vertices_and_indices: bool,
}

/// A texture: its handle and the parameters it was created with.
#[derive(Clone, Copy, Debug, PartialEq, Eq, Structural)]
pub struct Texture {
    pub id: TextureId,
    pub target: ImageBufferKind,
    pub format: ImageFormat,
    pub width: i32,
    pub height: i32,
    pub filter: TextureFilter,
    pub layer_count: i32,
}

impl Texture {
    /// Width, height and layer count are not negative.
    pub open spec fn wf(&self) -> bool {
        0 <= self.width && 0 <= self.height && 0 <= self.layer_count
    }

    /// GPU memory taken by the texture: bytes per texel times width, height
    /// and layer count.
    pub open spec fn spec_size_in_bytes(&self) -> int {
        self.format.spec_bytes_per_pixel() * self.width * self.height * self.layer_count
    }

    /// GPU memory taken by the texture, in bytes.
    pub fn size_in_bytes(&self) -> (size: usize)
        requires
            self.wf(),
            self.spec_size_in_bytes() <= usize::MAX,
        ensures
            size == self.spec_size_in_bytes(),
    {
        let bpp: u128 = self.format.bytes_per_pixel() as u128;
        let width: u128 = self.width as u128;
        let height: u128 = self.height as u128;
        let layers: u128 = self.layer_count as u128;
        assert(bpp * width <= 0x10 * 0x8000_0000) by (nonlinear_arith)
            requires
                bpp <= 0x10,
                width <= 0x8000_0000,
        ;
        assert(bpp * width * height <= 0x10 * 0x8000_0000 * 0x8000_0000) by (nonlinear_arith)
            requires
                bpp * width <= 0x10 * 0x8000_0000,
                height <= 0x8000_0000,
        ;
        assert(bpp * width * height * layers <= 0x10 * 0x8000_0000 * 0x8000_0000 * 0x8000_0000)
            by (nonlinear_arith)
            requires
                bpp * width * height <= 0x10 * 0x8000_0000 * 0x8000_0000,
                layers <= 0x8000_0000,
        ;
        (bpp * width * height * layers) as usize
    }
}

/// One command issued to the device.
#[derive(Debug, PartialEq)]
pub enum DeviceCommand {
    /// A buffer object was created under the given handle.
    CreateVbo { buffer: VBOId },
    /// The buffer was destroyed.
    DeleteVbo { buffer: VBOId },
    /// The buffer was made the current vertex buffer.
    BindVbo { buffer: VBOId },
    /// The buffer's storage was replaced by `count` records, `size_in_bytes`
    /// bytes in all, without mapping it.
    UpdateVboData { buffer: VBOId, count: usize, size_in_bytes: usize, usage_hint: VertexUsageHint },
    /// The buffer was made current, given `size_in_bytes` bytes of storage and
    /// mapped for writing.
    MapVertexBuffer { buffer: VBOId, size_in_bytes: usize, usage_hint: VertexUsageHint },
    /// The current vertex buffer was unmapped.
    UnmapVertexBuffer,
    /// A vertex array object was created, with buffers of its own for
    /// vertices, indices and instances.
    CreateVao { vao: VAO, descriptor: NamedDescriptor },
    /// A vertex array object was created that has an instance buffer of its
    /// own and shares the vertices and indices of another.
    CreateVaoWithNewInstances { vao: VAO, descriptor: NamedDescriptor },
    /// The vertex array object was destroyed, together with the buffers it
    /// owns.
    DeleteVao { vao: VAO },
    /// The vertex array object was made current.
    BindVao { vao_id: VAOId },
    /// The index buffer of the vertex array object was filled.
    UpdateVaoIndices { vao_id: VAOId, indices: Vec<u16>, usage_hint: VertexUsageHint },
    /// The vertex buffer of the vertex array object was filled.
    UpdateVaoMainVertices { vao_id: VAOId, vertices: Vec<[u8; 2]>, usage_hint: VertexUsageHint },
    /// The buffer was made the instance buffer of the current vertex array
    /// object.
    SwitchInstanceBuffer { buffer: VBOId, descriptor: NamedDescriptor, instance_divisor: u32 },
    /// A texture was created.
    CreateTexture { texture: Texture },
    /// The texture was destroyed.
    DeleteTexture { texture_id: TextureId },
    /// `len` records were written into the texture, row by row, over the
    /// given rectangle.
    UploadTexture { upload: TextureUpload },
    /// The texture was bound to the sampler.
    BindTexture { sampler: TextureSampler, texture_id: TextureId, swizzle: Swizzle },
}

/// A request to write `len` records into a texture, row by row and starting
/// with the first record of the source, over the rectangle `rect`.
#[derive(Clone, Copy, Debug, PartialEq)]
pub struct TextureUpload {
    pub texture: TextureId,
    pub rect: DeviceIntRect,
    pub len: usize,
}

/// The device as contracts speak of it: the commands issued so far and, for
/// every handle given out so far, whether its object is still alive.
pub struct DeviceView {
    pub commands: Seq<DeviceCommand>,
    pub live: Seq<bool>,
}

impl DeviceView {
    /// The view after one more command.
    pub open spec fn issue(self, command: DeviceCommand) -> DeviceView {
        DeviceView { commands: self.commands.push(command), live: self.live }
    }

    /// The view after `count` more handles were given out.
    pub open spec fn allocate(self, count: nat) -> DeviceView {
        DeviceView { commands: self.commands, live: self.live + Seq::new(count, |i: int| true) }
    }

    /// The view after the object behind `handle` was destroyed. A handle that
    /// was never given out changes nothing.
    pub open spec fn retire(self, handle: usize) -> DeviceView {
        DeviceView {
            commands: self.commands,
            live: if handle < self.live.len() {
                self.live.update(handle as int, false)
            } else {
                self.live
            },
        }
    }

    /// The view after the vertex array object and the buffers it owns were
    /// destroyed.
    pub open spec fn retire_vao(self, vao: VAO) -> DeviceView {
        let instances_gone = self.retire(vao.id.0).retire(vao.instance_vbo_id.0);
        if vao.owns_vertices_and_indices {
            instances_gone.retire(vao.ibo_id.0).retire(vao.main_vbo_id.0)
        } else {
            instances_gone
        }
    }

    /// The next handle that will be given out.
    pub open spec fn next_handle(self) -> nat {
        self.live.len()
    }
}

/// The vertex array object that `create_vao` returns when the next handle is
/// `base`.
pub open spec fn new_vao(base: nat, descriptor: NamedDescriptor, instance_divisor: u32) -> VAO {
    VAO {
        id: VAOId(base as usize),
        ibo_id: IBOId((base + 2) as usize),
        main_vbo_id: VBOId((base + 3) as usize),
        instance_vbo_id: VBOId((base + 1) as usize),
        instance_stride: descriptor.spec_instance_stride() as usize,
        instance_divisor,
        owns_vertices_and_indices: true,
    }
}

/// The vertex array object that `create_vao_with_new_instances` returns when
/// the next handle is `base`.
pub open spec fn new_vao_sharing(base: nat, descriptor: NamedDescriptor, base_vao: VAO) -> VAO {
    VAO {
        id: VAOId(base as usize),
        ibo_id: base_vao.ibo_id,
        main_vbo_id: base_vao.main_vbo_id,
        instance_vbo_id: VBOId((base + 1) as usize),
        instance_stride: descriptor.spec_instance_stride() as usize,
        instance_divisor: base_vao.instance_divisor,
        owns_vertices_and_indices: false,
    }
}

/// The recording device.
pub struct Device {
    commands: Vec<DeviceCommand>,
    live: Vec<bool>,
}

impl View for Device {
    type V = DeviceView;

    closed spec fn view(&self) -> DeviceView {
        DeviceView { commands: self.commands@, live: self.live@ }
    }
}

impl Device {
    /// A device that has given out no handle and recorded no command.
    pub fn new() -> (device: Device)
        ensures
            device@.commands == Seq::<DeviceCommand>::empty(),
            device@.live == Seq::<bool>::empty(),
    {
        Device { commands: Vec::new(), live: Vec::new() }
    }

    /// The handles given out can be counted in a `usize`.
    pub proof fn lemma_handles_countable(&self)
        ensures
            self@.next_handle() <= usize::MAX,
    {
        assert(self.live.len() == self.live@.len());
    }

    /// The commands recorded since the device was created or last emptied.
    pub fn commands(&self) -> (commands: &Vec<DeviceCommand>)
        ensures
            commands@ == self@.commands,
    {
        &self.commands
    }

    /// Hands the recorded commands to the caller and starts a new, empty
    /// record. Handles are not affected.
    pub fn take_commands(&mut self) -> (commands: Vec<DeviceCommand>)
        ensures
            commands@ == old(self)@.commands,
            final(self)@.commands == Seq::<DeviceCommand>::empty(),
            final(self)@.live == old(self)@.live,
    {
        let mut commands: Vec<DeviceCommand> = Vec::new();
        core::mem::swap(&mut self.commands, &mut commands);
        commands
    }

    /// Number of handles given out so far.
    pub fn handle_count(&self) -> (count: usize)
        ensures
            count == self@.live.len(),
    {
        self.live.len()
    }

    /// Whether `handle` was given out and its object has not been destroyed.
    pub fn is_live(&self, handle: usize) -> (live: bool)
        ensures
            live == (handle < self@.live.len() && self@.live[handle as int]),
    {
        handle < self.live.len() && self.live[handle]
    }

    fn allocate(&mut self) -> (handle: usize)
        ensures
            handle == old(self)@.live.len(),
            final(self)@ == old(self)@.allocate(1),
    {
        let handle: usize = self.live.len();
        self.live.push(true);
        proof {
            assert(self.live@ =~= old(self).live@ + Seq::new(1, |i: int| true));
        }
        handle
    }

    fn retire(&mut self, handle: usize)
        ensures
            final(self)@ == old(self)@.retire(handle),
    {
        if handle < self.live.len() {
            self.live.set(handle, false);
        }
    }

    fn issue(&mut self, command: DeviceCommand)
        ensures
            final(self)@ == old(self)@.issue(command),
    {
        self.commands.push(command);
    }

    /// Creates a buffer object and returns its handle, which no object had
    /// before.
    pub fn create_vbo_raw(&mut self) -> (buffer: VBOId)
        ensures
            buffer.0 == old(self)@.next_handle(),
            final(self)@ == old(self)@.allocate(1).issue(DeviceCommand::CreateVbo { buffer }),
    {
        let buffer = VBOId(self.allocate());
        self.issue(DeviceCommand::CreateVbo { buffer });
        buffer
    }

    /// Destroys a buffer object.
    pub fn delete_vbo_raw(&mut self, buffer: VBOId)
        ensures
            final(self)@ == old(self)@.retire(buffer.0).issue(DeviceCommand::DeleteVbo { buffer }),
    {
        self.retire(buffer.0);
        self.issue(DeviceCommand::DeleteVbo { buffer });
    }

    /// Makes `buffer` the current vertex buffer.
    pub fn bind_vbo(&mut self, buffer: VBOId)
        ensures
            final(self)@ == old(self)@.issue(DeviceCommand::BindVbo { buffer }),
    {
        self.issue(DeviceCommand::BindVbo { buffer });
    }

    /// Replaces the storage of `buffer` by the records of `data`, without
    /// mapping it.
    pub fn update_vbo_data<T>(&mut self, buffer: VBOId, data: &[T], usage_hint: VertexUsageHint)
        ensures
            data@.len() * vstd::layout::size_of::<T>() <= usize::MAX,
            final(self)@ == old(self)@.issue(
                DeviceCommand::UpdateVboData {
                    buffer,
                    count: data@.len() as usize,
                    size_in_bytes: (data@.len() * vstd::layout::size_of::<T>()) as usize,
                    usage_hint,
                },
            ),
    {
        broadcast use vstd::layout::layout_of_slices;

        let size_in_bytes: usize = core::mem::size_of_val(data);
        self.issue(
            DeviceCommand::UpdateVboData { buffer, count: data.len(), size_in_bytes, usage_hint },
        );
    }

    /// Makes `buffer` current, gives it `size_in_bytes` bytes of fresh storage
    /// and maps that storage for writing.
    pub fn initialize_mapped_vertex_buffer(
        &mut self,
        buffer: VBOId,
        size_in_bytes: usize,
        usage_hint: VertexUsageHint,
    )
        ensures
            final(self)@ == old(self)@.issue(
                DeviceCommand::MapVertexBuffer { buffer, size_in_bytes, usage_hint },
            ),
    {
        self.issue(DeviceCommand::MapVertexBuffer { buffer, size_in_bytes, usage_hint });
    }

    /// Unmaps the current vertex buffer.
    pub fn unmap_vertex_buffer(&mut self)
        ensures
            final(self)@ == old(self)@.issue(DeviceCommand::UnmapVertexBuffer),
    {
        self.issue(DeviceCommand::UnmapVertexBuffer);
    }

    /// Creates a vertex array object for the layout, with new buffers for
    /// vertices, indices and instances. It takes four consecutive handles.
    pub fn create_vao(&mut self, descriptor: NamedDescriptor, instance_divisor: u32) -> (vao: VAO)
        ensures
            vao == new_vao(old(self)@.next_handle(), descriptor, instance_divisor),
            final(self)@ == old(self)@.allocate(4).issue(
                DeviceCommand::CreateVao { vao, descriptor },
            ),
    {
        let id: usize = self.allocate();
        let instance_vbo: usize = self.allocate();
        let ibo: usize = self.allocate();
        let main_vbo: usize = self.allocate();
        let vao = VAO {
            id: VAOId(id),
            ibo_id: IBOId(ibo),
            main_vbo_id: VBOId(main_vbo),
            instance_vbo_id: VBOId(instance_vbo),
            instance_stride: descriptor.instance_stride(),
            instance_divisor,
            owns_vertices_and_indices: true,
        };
        proof {
            assert(self@.live =~= old(self)@.allocate(4).live);
        }
        self.issue(DeviceCommand::CreateVao { vao, descriptor });
        vao
    }

    /// Creates a vertex array object for the layout that reads the vertices
    /// and indices of `base_vao` and has a new instance buffer of its own. It
    /// takes two consecutive handles.
    pub fn create_vao_with_new_instances(
        &mut self,
        descriptor: NamedDescriptor,
        base_vao: &VAO,
    ) -> (vao: VAO)
        ensures
            vao == new_vao_sharing(old(self)@.next_handle(), descriptor, *base_vao),
            final(self)@ == old(self)@.allocate(2).issue(
                DeviceCommand::CreateVaoWithNewInstances { vao, descriptor },
            ),
    {
        let id: usize = self.allocate();
        let instance_vbo: usize = self.allocate();
        let vao = VAO {
            id: VAOId(id),
            ibo_id: base_vao.ibo_id,
            main_vbo_id: base_vao.main_vbo_id,
            instance_vbo_id: VBOId(instance_vbo),
            instance_stride: descriptor.instance_stride(),
            instance_divisor: base_vao.instance_divisor,
            owns_vertices_and_indices: false,
        };
        proof {
            assert(self@.live =~= old(self)@.allocate(2).live);
        }
        self.issue(DeviceCommand::CreateVaoWithNewInstances { vao, descriptor });
        vao
    }

    /// Destroys a vertex array object, its instance buffer and, where it owns
    /// them, its vertex and index buffers.
    pub fn delete_vao(&mut self, vao: VAO)
        ensures
            final(self)@ == old(self)@.retire_vao(vao).issue(DeviceCommand::DeleteVao { vao }),
    {
        self.retire(vao.id.0);
        self.retire(vao.instance_vbo_id.0);
        if vao.owns_vertices_and_indices {
            self.retire(vao.ibo_id.0);
            self.retire(vao.main_vbo_id.0);
        }
        self.issue(DeviceCommand::DeleteVao { vao });
    }

    /// Makes `vao` the current vertex array object.
    pub fn bind_vao(&mut self, vao: &VAO)
        ensures
            final(self)@ == old(self)@.issue(DeviceCommand::BindVao { vao_id: vao.id }),
    {
        self.issue(DeviceCommand::BindVao { vao_id: vao.id });
    }

    /// Fills the index buffer of `vao` with `indices`.
    pub fn update_vao_indices(&mut self, vao: &VAO, indices: Vec<u16>, usage_hint: VertexUsageHint)
        ensures
            final(self)@ == old(self)@.issue(
                DeviceCommand::UpdateVaoIndices { vao_id: vao.id, indices, usage_hint },
            ),
    {
        self.issue(DeviceCommand::UpdateVaoIndices { vao_id: vao.id, indices, usage_hint });
    }

    /// Fills the vertex buffer of `vao` with `vertices`.
    pub fn update_vao_main_vertices(
        &mut self,
        vao: &VAO,
        vertices: Vec<[u8; 2]>,
        usage_hint: VertexUsageHint,
    )
        ensures
            final(self)@ == old(self)@.issue(
                DeviceCommand::UpdateVaoMainVertices { vao_id: vao.id, vertices, usage_hint },
            ),
    {
        self.issue(DeviceCommand::UpdateVaoMainVertices { vao_id: vao.id, vertices, usage_hint });
    }

    /// Makes `buffer` the instance buffer of the current vertex array object,
    /// read with the layout `descriptor`.
    pub fn switch_instance_buffer(
        &mut self,
        buffer: VBOId,
        descriptor: NamedDescriptor,
        instance_divisor: u32,
    )
        ensures
            final(self)@ == old(self)@.issue(
                DeviceCommand::SwitchInstanceBuffer { buffer, descriptor, instance_divisor },
            ),
    {
        self.issue(DeviceCommand::SwitchInstanceBuffer { buffer, descriptor, instance_divisor });
    }

    /// Creates a texture with the given parameters and returns it under a
    /// handle that no object had before.
    pub fn create_texture(
        &mut self,
        target: ImageBufferKind,
        format: ImageFormat,
        width: i32,
        height: i32,
        filter: TextureFilter,
        layer_count: i32,
    ) -> (texture: Texture)
        ensures
            texture == (Texture {
                id: TextureId(old(self)@.next_handle() as usize),
                target,
                format,
                width,
                height,
                filter,
                layer_count,
            }),
            final(self)@ == old(self)@.allocate(1).issue(DeviceCommand::CreateTexture { texture }),
    {
        let id: usize = self.allocate();
        let texture = Texture { id: TextureId(id), target, format, width, height, filter, layer_count };
        self.issue(DeviceCommand::CreateTexture { texture });
        texture
    }

    /// Destroys a texture.
    pub fn delete_texture(&mut self, texture: Texture)
        ensures
            final(self)@ == old(self)@.retire(texture.id.0).issue(
                DeviceCommand::DeleteTexture { texture_id: texture.id },
            ),
    {
        self.retire(texture.id.0);
        self.issue(DeviceCommand::DeleteTexture { texture_id: texture.id });
    }

    /// Starts a batch of texture uploads.
    pub fn upload_texture(&mut self) -> (uploader: TextureUploader)
        ensures
            uploader@ == Seq::<TextureUpload>::empty(),
            final(self)@ == old(self)@,
    {
        TextureUploader { staged: Vec::new() }
    }

    /// Binds a texture to a sampler.
    pub fn bind_texture(&mut self, sampler: TextureSampler, texture: &Texture, swizzle: Swizzle)
        ensures
            final(self)@ == old(self)@.issue(
                DeviceCommand::BindTexture { sampler, texture_id: texture.id, swizzle },
            ),
    {
        self.issue(DeviceCommand::BindTexture { sampler, texture_id: texture.id, swizzle });
    }
}

/// The commands that a flush of the staged uploads issues: one per upload, in
/// the order in which they were staged.
pub open spec fn upload_commands(uploads: Seq<TextureUpload>) -> Seq<DeviceCommand> {
    Seq::new(uploads.len(), |i: int| DeviceCommand::UploadTexture { upload: uploads[i] })
}

/// A batch of texture uploads. Uploads are staged in the order in which they
/// are requested and reach the device together, on `flush`.
pub struct TextureUploader {
    staged: Vec<TextureUpload>,
}

impl View for TextureUploader {
    type V = Seq<TextureUpload>;

    closed spec fn view(&self) -> Seq<TextureUpload> {
        self.staged@
    }
}

impl TextureUploader {
    /// The uploads staged so far.
    pub fn staged(&self) -> (staged: &Vec<TextureUpload>)
        ensures
            staged@ == self@,
    {
        &self.staged
    }

    /// Stages the upload of `len` records into `texture`, over `rect`.
    pub fn upload(&mut self, texture: &Texture, rect: DeviceIntRect, len: usize)
        ensures
            final(self)@ == old(self)@.push(TextureUpload { texture: texture.id, rect, len }),
    {
        self.staged.push(TextureUpload { texture: texture.id, rect, len });
    }

    /// Issues the staged uploads to the device, first staged first, and ends
    /// the batch.
    pub fn flush(self, device: &mut Device)
        ensures
            final(device)@.commands == old(device)@.commands + upload_commands(self@),
            final(device)@.live == old(device)@.live,
    {
        let mut i: usize = 0;
        while i < self.staged.len()
            invariant
                i <= self.staged@.len(),
                device@.live == old(device)@.live,
                device@.commands == old(device)@.commands + upload_commands(self@).take(i as int),
            decreases self.staged@.len() - i,
        {
            let upload: TextureUpload = self.staged[i];
            device.issue(DeviceCommand::UploadTexture { upload });
            proof {
                assert(upload_commands(self@).take(i + 1) =~= upload_commands(self@).take(
                    i as int,
                ).push(DeviceCommand::UploadTexture { upload }));
            }
            i += 1;
        }
        proof {
            assert(upload_commands(self@).take(i as int) =~= upload_commands(self@));
        }
    }
}

} // verus!
