//! Vertex data textures: arrays of fixed-size records uploaded into 2D
//! textures of a fixed width, one row of records after another.

use core::marker::PhantomData;
use vstd::arithmetic::div_mod::{
    lemma_div_by_multiple, lemma_div_pos_is_pos, lemma_fundamental_div_mod,
    lemma_mod_multiples_basic, lemma_mod_pos_bound,
};
use vstd::prelude::*;
use crate::device::{
    upload_commands, Device, DeviceCommand, DeviceView, ImageBufferKind, ImageFormat, Swizzle,
    Texture, TextureFilter, TextureId, TextureSampler, TextureUpload, TextureUploader,
};
use crate::units::{
    device_int_rect, device_rect_at_origin, max_vertex_texture_width,
    spec_max_vertex_texture_width, TEXEL_SIZE, VERTEX_TEXTURE_EXTRA_ROWS,
};

verus! {

/// Number of texels that one record of `size` bytes takes.
pub open spec fn texels_per_item(size: nat) -> nat {
    size / TEXEL_SIZE as nat
}

/// Number of records of `size` bytes that fit in one row of a vertex data
/// texture.
pub open spec fn items_per_row(size: nat) -> nat {
    spec_max_vertex_texture_width() as nat / texels_per_item(size)
}

/// Whether records of `size` bytes can be kept in a vertex data texture: they
/// are made of whole texels, at least one and at most a row of them.
pub open spec fn record_size_supported(size: nat) -> bool {
    &&& size % (TEXEL_SIZE as nat) == 0
    &&& 1 <= texels_per_item(size) <= spec_max_vertex_texture_width()
}

/// Number of texture rows needed for `len` records at `per_row` records a
/// row: the quotient rounded up, and one row where there is no record.
pub open spec fn rows_needed(len: nat, per_row: nat) -> nat {
    if len == 0 {
        1
    } else if len % per_row == 0 {
        len / per_row
    } else {
        len / per_row + 1
    }
}

/// Whether a texture of `existing` rows is replaced when `needed` rows are
/// asked for: it is too small, or more than the allowed number of rows would
/// stay unused.
pub open spec fn must_recreate(needed: int, existing: int) -> bool {
    needed > existing || needed + VERTEX_TEXTURE_EXTRA_ROWS < existing
}

/// Width in texels of the part of each row that an upload of `len` records
/// over `needed` rows covers: the records themselves where they fit in one
/// row, otherwise as many whole records as a row holds.
pub open spec fn logical_width(len: nat, needed: nat, size: nat) -> nat {
    if needed == 1 {
        len * texels_per_item(size)
    } else {
        let width = spec_max_vertex_texture_width() as nat;
        (width - width % texels_per_item(size)) as nat
    }
}

/// Height of the texture that holds `needed` rows: never less than two.
pub open spec fn texture_height(needed: int) -> int {
    if needed < 2 {
        2
    } else {
        needed
    }
}

/// `rows_needed` is the quotient rounded up: the rows hold all the records,
/// and one row less would not.
pub proof fn lemma_rows_needed_is_ceiling(len: nat, per_row: nat)
    requires
        0 < len,
        0 < per_row,
    ensures
        len <= rows_needed(len, per_row) * per_row,
        (rows_needed(len, per_row) - 1) * per_row < len,
        1 <= rows_needed(len, per_row) <= len,
{
    let q = len as int / per_row as int;
    let r = len as int % per_row as int;
    lemma_fundamental_div_mod(len as int, per_row as int);
    lemma_mod_pos_bound(len as int, per_row as int);
    lemma_div_pos_is_pos(len as int, per_row as int);
    assert(per_row * q == q * per_row) by (nonlinear_arith);
    assert((q + 1) * per_row == q * per_row + per_row) by (nonlinear_arith);
    assert((q - 1) * per_row == q * per_row - per_row) by (nonlinear_arith);
    assert(q * per_row >= q) by (nonlinear_arith)
        requires
            q >= 0,
            per_row >= 1,
    ;
    if q == 0 {
        assert(q * per_row == 0) by (nonlinear_arith)
            requires
                q == 0,
        ;
    }
}

/// More records never need fewer rows.
pub proof fn lemma_rows_needed_grows(fewer: nat, more: nat, per_row: nat)
    requires
        fewer <= more,
        0 < per_row,
    ensures
        rows_needed(fewer, per_row) <= rows_needed(more, per_row),
{
    if fewer > 0 {
        lemma_rows_needed_is_ceiling(fewer, per_row);
        lemma_rows_needed_is_ceiling(more, per_row);
        let few = rows_needed(fewer, per_row) as int;
        let many = rows_needed(more, per_row) as int;
        assert(few - 1 < many) by (nonlinear_arith)
            requires
                (few - 1) * per_row < fewer,
                fewer <= more,
                more <= many * per_row,
                0 < per_row,
        ;
    } else if more > 0 {
        lemma_rows_needed_is_ceiling(more, per_row);
    }
}

/// Number of rows that a row-padded length fills.
proof fn lemma_whole_rows(rows: int, per_row: int)
    requires
        0 <= rows,
        0 < per_row,
    ensures
        (rows * per_row) / per_row == rows,
        (rows * per_row) % per_row == 0,
{
    lemma_div_by_multiple(rows, per_row);
    lemma_mod_multiples_basic(rows, per_row);
}

/// A GPU texture that holds an array of records of type `T`, row by row.
pub struct VertexDataTexture<T> {
    texture: Option<Texture>,
    format: ImageFormat,
    _marker: PhantomData<T>,
}

impl<T> View for VertexDataTexture<T> {
    type V = Option<Texture>;

    /// The texture behind the array, once there is one.
    closed spec fn view(&self) -> Option<Texture> {
        self.texture
    }
}

impl<T> VertexDataTexture<T> {
    /// The format that the texture is created with.
    pub closed spec fn spec_format(&self) -> ImageFormat {
        self.format
    }

    /// The texture that `update` creates on the handle `id` for `needed`
    /// rows.
    pub open spec fn texture_for(id: nat, format: ImageFormat, needed: int) -> Texture {
        Texture {
            id: TextureId(id as usize),
            target: ImageBufferKind::Texture2D,
            format,
            width: spec_max_vertex_texture_width() as i32,
            height: texture_height(needed) as i32,
            filter: TextureFilter::Nearest,
            layer_count: 1,
        }
    }

    /// The texture, where there is one, is a 2D texture of the full width and
    /// of at least two rows, in the format of this array.
    pub open spec fn wf(&self) -> bool {
        match self@ {
            Some(texture) => {
                &&& texture.target == ImageBufferKind::Texture2D
                &&& texture.format == self.spec_format()
                &&& texture.width == spec_max_vertex_texture_width()
                &&& texture.height >= 2
                &&& texture.filter == TextureFilter::Nearest
                &&& texture.layer_count == 1
            },
            None => true,
        }
    }

    /// Number of rows of the texture, zero where there is none.
    pub open spec fn existing_height(&self) -> int {
        match self@ {
            Some(texture) => texture.height as int,
            None => 0,
        }
    }

    /// Whether records of type `T` can be kept in a vertex data texture.
    pub open spec fn supported() -> bool {
        record_size_supported(vstd::layout::size_of::<T>())
    }

    /// Number of records of type `T` in one row.
    pub open spec fn spec_items_per_row() -> nat {
        items_per_row(vstd::layout::size_of::<T>())
    }

    /// Whether `update` with `len` records does nothing: there is no record
    /// and a texture is in place.
    pub open spec fn skips_update(&self, len: nat) -> bool {
        len == 0 && self@ is Some
    }

    /// Number of rows that `update` with `len` records uploads.
    pub open spec fn rows_for(len: nat) -> nat {
        rows_needed(len, Self::spec_items_per_row())
    }

    /// Whether `update` with `len` records replaces the texture.
    pub open spec fn recreates(&self, len: nat) -> bool {
        !self.skips_update(len) && must_recreate(Self::rows_for(len) as int, self.existing_height())
    }

    /// The texture that `update` with `len` records leaves, on a device in
    /// state `device`: a new one of `texture_height` rows on the next handle
    /// where it replaces the texture, else the one there was.
    pub open spec fn texture_after_update(&self, device: DeviceView, len: nat) -> Option<Texture> {
        if self.recreates(len) {
            Some(
                Self::texture_for(device.next_handle(), self.spec_format(), Self::rows_for(len) as int),
            )
        } else {
            self@
        }
    }

    /// The device after `update` with `len` records: where the texture is
    /// replaced, the old texture, if any, is destroyed and the new one
    /// created; else nothing reaches the device.
    pub open spec fn device_after_update(&self, device: DeviceView, len: nat) -> DeviceView {
        if self.recreates(len) {
            let cleared = match self@ {
                Some(texture) => device.retire(texture.id.0).issue(
                    DeviceCommand::DeleteTexture { texture_id: texture.id },
                ),
                None => device,
            };
            cleared.allocate(1).issue(
                DeviceCommand::CreateTexture {
                    texture: self.texture_after_update(device, len)->0,
                },
            )
        } else {
            device
        }
    }

    /// The uploads that `update` with `len` records stages: none where it
    /// does nothing, else one, of all the rows needed, into the texture it
    /// leaves.
    pub open spec fn uploads_of_update(&self, device: DeviceView, len: nat) -> Seq<TextureUpload> {
        if self.skips_update(len) {
            Seq::empty()
        } else {
            seq![
                TextureUpload {
                    texture: self.texture_after_update(device, len)->0.id,
                    rect: device_rect_at_origin(
                        logical_width(len, Self::rows_for(len), vstd::layout::size_of::<T>()) as int,
                        Self::rows_for(len) as int,
                    ),
                    len: (Self::rows_for(len) * Self::spec_items_per_row()) as usize,
                },
            ]
        }
    }

    /// Whether `update` may be called with `len` records: the rows needed,
    /// and the spare rows on top, can be counted in an `i32`.
    pub open spec fn can_update(len: nat) -> bool {
        Self::rows_for(len) + VERTEX_TEXTURE_EXTRA_ROWS <= i32::MAX
    }

    /// At least one record of type `T` fits in a row.
    pub proof fn lemma_items_per_row()
        requires
            Self::supported(),
        ensures
            1 <= Self::spec_items_per_row() <= spec_max_vertex_texture_width(),
    {
        let texels = texels_per_item(vstd::layout::size_of::<T>()) as int;
        let width = spec_max_vertex_texture_width() as int;
        lemma_fundamental_div_mod(width, texels);
        lemma_mod_pos_bound(width, texels);
        lemma_div_pos_is_pos(width, texels);
        assert(1 <= width / texels <= width) by (nonlinear_arith)
            requires
                1 <= texels <= width,
                width == texels * (width / texels) + width % texels,
                0 <= width % texels < texels,
                0 <= width / texels,
        ;
    }

    /// After `update` the texture is never more than the allowed number of
    /// rows higher than the rows that were needed, nor lower than them.
    pub proof fn lemma_height_after_update(&self, device: DeviceView, len: nat)
        requires
            self.wf(),
            Self::supported(),
            Self::can_update(len),
            !self.skips_update(len),
        ensures
            self.texture_after_update(device, len) is Some,
            Self::rows_for(len) <= self.texture_after_update(device, len)->0.height
                <= Self::rows_for(len) + VERTEX_TEXTURE_EXTRA_ROWS,
    {
        Self::lemma_items_per_row();
        if len > 0 {
            lemma_rows_needed_is_ceiling(len, Self::spec_items_per_row());
        }
    }

    /// Between two updates of which the second has at least as many records
    /// as the first, and the first has some, the texture is replaced exactly
    /// when the second needs more rows than the texture has.
    pub proof fn lemma_update_with_more_data(
        &self,
        device: DeviceView,
        first: nat,
        second: nat,
        between: &Self,
    )
        requires
            self.wf(),
            Self::supported(),
            Self::can_update(first),
            0 < first <= second,
            between@ == self.texture_after_update(device, first),
        ensures
            between.recreates(second) <==> Self::rows_for(second) > between.existing_height(),
    {
        Self::lemma_items_per_row();
        lemma_rows_needed_grows(first, second, Self::spec_items_per_row());
        self.lemma_height_after_update(device, first);
    }

    /// The upload that `update` stages holds every record of the data, and
    /// nothing past the rows of the texture.
    pub proof fn lemma_upload_covers_data(&self, device: DeviceView, len: nat)
        requires
            self.wf(),
            Self::supported(),
            Self::can_update(len),
            !self.skips_update(len),
        ensures
            self.uploads_of_update(device, len).len() == 1,
            len <= Self::rows_for(len) * Self::spec_items_per_row(),
            Self::rows_for(len) <= self.texture_after_update(device, len)->0.height,
    {
        Self::lemma_items_per_row();
        if len > 0 {
            lemma_rows_needed_is_ceiling(len, Self::spec_items_per_row());
        }
        self.lemma_height_after_update(device, len);
    }

    /// Number of records of type `T` in one row: the width of the texture in
    /// texels, by the number of texels that a record takes.
    pub fn items_per_row() -> (count: usize)
        requires
            Self::supported(),
        ensures
            count == Self::spec_items_per_row(),
            1 <= count <= spec_max_vertex_texture_width(),
    {
        proof {
            Self::lemma_items_per_row();
        }
        let texels_per_item: usize = core::mem::size_of::<T>() / TEXEL_SIZE;
        max_vertex_texture_width() / texels_per_item
    }

    /// Whether records of type `T` can be kept in a vertex data texture: they
    /// are made of whole texels, at least one and at most a row of them.
    pub fn is_supported() -> (supported: bool)
        ensures
            supported == Self::supported(),
    {
        let size: usize = core::mem::size_of::<T>();
        let texels_per_item: usize = size / TEXEL_SIZE;
        size % TEXEL_SIZE == 0 && 1 <= texels_per_item && texels_per_item
            <= max_vertex_texture_width()
    }

    /// Whether `update` may be called with `len` records: the rows needed,
    /// and the spare rows on top, can be counted in an `i32`.
    pub fn can_hold(len: usize) -> (possible: bool)
        requires
            Self::supported(),
        ensures
            possible == Self::can_update(len as nat),
    {
        let items_per_row: usize = Self::items_per_row();
        if len == 0 {
            return true;
        }
        let most: usize = (i32::MAX - VERTEX_TEXTURE_EXTRA_ROWS) as usize;
        let whole: usize = len / items_per_row;
        proof {
            lemma_div_pos_is_pos(len as int, items_per_row as int);
        }
        if whole > most {
            return false;
        }
        if len % items_per_row == 0 {
            true
        } else {
            whole < most
        }
    }

    /// An array without a texture yet.
    pub fn new(format: ImageFormat) -> (array: Self)
        ensures
            array@ is None,
            array.spec_format() == format,
            array.wf(),
    {
        Self { texture: None, format, _marker: PhantomData }
    }

    /// The GPU texture.
    pub fn texture(&self) -> (texture: &Texture)
        requires
            self@ is Some,
        ensures
            Some(*texture) == self@,
    {
        self.texture.as_ref().unwrap()
    }

    /// The format that the texture is created with.
    pub fn format(&self) -> (format: ImageFormat)
        ensures
            format == self.spec_format(),
    {
        self.format
    }

    /// GPU memory taken by the texture, in bytes: zero where there is none.
    pub open spec fn spec_size_in_bytes(&self) -> int {
        match self@ {
            Some(texture) => texture.spec_size_in_bytes(),
            None => 0,
        }
    }

    /// An estimate of the GPU memory taken by the texture: zero where there is
    /// none.
    pub fn size_in_bytes(&self) -> (size: usize)
        requires
            self.wf(),
            self.spec_size_in_bytes() <= usize::MAX,
        ensures
            size == self.spec_size_in_bytes(),
    {
        match &self.texture {
            Some(texture) => texture.size_in_bytes(),
            None => 0,
        }
    }

    /// Uploads `data` as the contents of the texture, record after record and
    /// row after row, and makes sure that there is a texture afterwards.
    ///
    /// With no data and a texture in place nothing happens. Otherwise the
    /// upload covers `rows_for` whole rows; with no data and no texture yet,
    /// that is one row. The texture is replaced by one of `texture_height`
    /// rows exactly when `must_recreate` holds of the rows needed and the
    /// rows there are. The upload is staged on `texture_uploader`; `data`
    /// keeps its contents.
    pub fn update(
        &mut self,
        device: &mut Device,
        texture_uploader: &mut TextureUploader,
        data: &mut Vec<T>,
    )
        requires
            old(self).wf(),
            Self::supported(),
            Self::can_update(old(data)@.len()),
        ensures
            final(self).wf(),
            final(self).spec_format() == old(self).spec_format(),
            final(data)@ == old(data)@,
            final(self)@ is Some,
            final(self).existing_height() >= Self::rows_for(old(data)@.len()),
            final(self)@ == old(self).texture_after_update(old(device)@, old(data)@.len()),
            final(device)@ == old(self).device_after_update(old(device)@, old(data)@.len()),
            final(texture_uploader)@ == old(texture_uploader)@ + old(self).uploads_of_update(
                old(device)@,
                old(data)@.len(),
            ),
    {
        broadcast use vstd::layout::layout_of_slices;

        let max_width: usize = max_vertex_texture_width();
        let texels_per_item: usize = core::mem::size_of::<T>() / TEXEL_SIZE;
        let items_per_row: usize = max_width / texels_per_item;
        // The bytes of the data can be counted; so can its records, padded to
        // whole rows.
        let bytes: usize = core::mem::size_of_val(data.as_slice());
        proof {
            let size = vstd::layout::size_of::<T>() as int;
            lemma_fundamental_div_mod(size, TEXEL_SIZE as int);
            lemma_fundamental_div_mod(max_width as int, texels_per_item as int);
            assert(1 <= items_per_row <= max_width) by (nonlinear_arith)
                requires
                    1 <= texels_per_item <= max_width,
                    items_per_row == max_width as int / texels_per_item as int,
            ;
            assert(items_per_row * texels_per_item <= max_width) by (nonlinear_arith)
                requires
                    max_width == texels_per_item * (max_width as int / texels_per_item as int)
                        + (max_width as int % texels_per_item as int),
                    items_per_row == max_width as int / texels_per_item as int,
                    0 <= max_width as int % texels_per_item as int,
            ;
            assert(data@.len() * 16 <= bytes) by (nonlinear_arith)
                requires
                    bytes == data@.len() * size,
                    size >= 16,
            ;
        }

        // Ensure we always end up with a texture when leaving this method.
        let mut len: usize = data.len();
        if len == 0 {
            if self.texture.is_some() {
                proof {
                    assert(texture_uploader@ + Seq::<TextureUpload>::empty() =~= texture_uploader@);
                }
                return ;
            }
            data.reserve(items_per_row);
            len = items_per_row;
            proof {
                lemma_whole_rows(1, items_per_row as int);
            }
        } else {
            // Extend the data array to have enough capacity to upload at least
            // a multiple of the row size.
            let extra: usize = len % items_per_row;
            proof {
                lemma_fundamental_div_mod(len as int, items_per_row as int);
                let q = len as int / items_per_row as int;
                assert(items_per_row * q == q * items_per_row) by (nonlinear_arith);
                assert((q + 1) * items_per_row == q * items_per_row + items_per_row)
                    by (nonlinear_arith);
                assert(0 <= q) by (nonlinear_arith)
                    requires
                        q == len as int / items_per_row as int,
                        0 < items_per_row,
                ;
                lemma_whole_rows(q, items_per_row as int);
                lemma_whole_rows(q + 1, items_per_row as int);
            }
            if extra != 0 {
                let padding: usize = items_per_row - extra;
                data.reserve(padding);
                len += padding;
            }
        }

        let needed_height: i32 = (len / items_per_row) as i32;
        let existing_height: i32 = match &self.texture {
            Some(texture) => texture.height,
            None => 0,
        };
        proof {
            assert(needed_height == rows_needed(old(data)@.len(), Self::spec_items_per_row()));
            assert(len == needed_height * items_per_row);
            if old(data)@.len() > 0 {
                lemma_rows_needed_is_ceiling(old(data)@.len(), items_per_row as nat);
            }
            assert(needed_height == 1 ==> data@.len() <= items_per_row) by (nonlinear_arith)
                requires
                    data@.len() <= needed_height * items_per_row || data@.len() == 0,
                    0 <= items_per_row,
            ;
        }

        // Create a new texture if needed: the texture is sized tightly to
        // what is uploaded, and shrunk once the waste would exceed the extra
        // rows allowed.
        if needed_height > existing_height || needed_height + VERTEX_TEXTURE_EXTRA_ROWS
            < existing_height {
            // Drop the existing texture, if any.
            match self.texture {
                Some(texture) => {
                    device.delete_texture(texture);
                },
                None => {},
            }
            // The height is at least two: some drivers mishandle textures of a
            // single row.
            let height: i32 = if needed_height < 2 {
                2
            } else {
                needed_height
            };
            let texture = device.create_texture(
                ImageBufferKind::Texture2D,
                self.format,
                max_width as i32,
                height,
                TextureFilter::Nearest,
                1,
            );
            self.texture = Some(texture);
        }

        // The actual width can be larger than the logical one, with a few
        // texels of each row unused at the tail.
        let logical_width: usize = if needed_height == 1 {
            proof {
                assert(data@.len() * texels_per_item <= items_per_row * texels_per_item)
                    by (nonlinear_arith)
                    requires
                        data@.len() <= items_per_row,
                ;
            }
            data.len() * texels_per_item
        } else {
            max_width - (max_width % texels_per_item)
        };

        let rect = device_int_rect(logical_width as i32, needed_height);
        texture_uploader.upload(self.texture(), rect, len);
        proof {
            let uploads = old(self).uploads_of_update(old(device)@, old(data)@.len());
            assert(texture_uploader@ =~= old(texture_uploader)@ + uploads);
        }
    }

    /// The device after `deinit`: the texture, if there is one, is destroyed.
    pub open spec fn device_after_deinit(&self, device: DeviceView) -> DeviceView {
        match self@ {
            Some(texture) => device.retire(texture.id.0).issue(
                DeviceCommand::DeleteTexture { texture_id: texture.id },
            ),
            None => device,
        }
    }

    /// Destroys the texture, if there is one.
    pub fn deinit(self, device: &mut Device)
        ensures
            final(device)@ == self.device_after_deinit(old(device)@),
    {
        match self.texture {
            Some(texture) => {
                device.delete_texture(texture);
            },
            None => {},
        }
    }
}

/// The four vertex data textures of a frame: the primitive headers, as
/// floats and as integers, the transforms, and the render tasks.
pub struct VertexDataTextures<F, I, X, R> {
    prim_header_f_texture: VertexDataTexture<F>,
    prim_header_i_texture: VertexDataTexture<I>,
    transforms_texture: VertexDataTexture<X>,
    render_task_texture: VertexDataTexture<R>,
}

/// The commands that bind the four textures to their samplers.
pub open spec fn bind_commands(
    prim_headers_f: Texture,
    prim_headers_i: Texture,
    transforms: Texture,
    render_tasks: Texture,
) -> Seq<DeviceCommand> {
    seq![
        DeviceCommand::BindTexture {
            sampler: TextureSampler::PrimitiveHeadersF,
            texture_id: prim_headers_f.id,
            swizzle: Swizzle::Rgba,
        },
        DeviceCommand::BindTexture {
            sampler: TextureSampler::PrimitiveHeadersI,
            texture_id: prim_headers_i.id,
            swizzle: Swizzle::Rgba,
        },
        DeviceCommand::BindTexture {
            sampler: TextureSampler::TransformPalette,
            texture_id: transforms.id,
            swizzle: Swizzle::Rgba,
        },
        DeviceCommand::BindTexture {
            sampler: TextureSampler::RenderTasks,
            texture_id: render_tasks.id,
            swizzle: Swizzle::Rgba,
        },
    ]
}

impl<F, I, X, R> VertexDataTextures<F, I, X, R> {
    /// The array of the primitive headers stored as floats.
    pub closed spec fn prim_headers_f(&self) -> VertexDataTexture<F> {
        self.prim_header_f_texture
    }

    /// The array of the primitive headers stored as integers.
    pub closed spec fn prim_headers_i(&self) -> VertexDataTexture<I> {
        self.prim_header_i_texture
    }

    /// The array of the transforms.
    pub closed spec fn transforms(&self) -> VertexDataTexture<X> {
        self.transforms_texture
    }

    /// The array of the render tasks.
    pub closed spec fn render_tasks(&self) -> VertexDataTexture<R> {
        self.render_task_texture
    }

    /// Each array is well-formed and in its own format: integers for the
    /// integer headers, floats for the others.
    pub open spec fn wf(&self) -> bool {
        &&& self.prim_headers_f().wf()
        &&& self.prim_headers_i().wf()
        &&& self.transforms().wf()
        &&& self.render_tasks().wf()
        &&& self.prim_headers_f().spec_format() == ImageFormat::RGBAF32
        &&& self.prim_headers_i().spec_format() == ImageFormat::RGBAI32
        &&& self.transforms().spec_format() == ImageFormat::RGBAF32
        &&& self.render_tasks().spec_format() == ImageFormat::RGBAF32
    }

    /// Whether records of all four types can be kept in vertex data textures.
    pub open spec fn supported() -> bool {
        &&& VertexDataTexture::<F>::supported()
        &&& VertexDataTexture::<I>::supported()
        &&& VertexDataTexture::<X>::supported()
        &&& VertexDataTexture::<R>::supported()
    }

    /// Four arrays without textures.
    pub fn new() -> (textures: Self)
        ensures
            textures.wf(),
            textures.prim_headers_f()@ is None,
            textures.prim_headers_i()@ is None,
            textures.transforms()@ is None,
            textures.render_tasks()@ is None,
    {
        VertexDataTextures {
            prim_header_f_texture: VertexDataTexture::new(ImageFormat::RGBAF32),
            prim_header_i_texture: VertexDataTexture::new(ImageFormat::RGBAI32),
            transforms_texture: VertexDataTexture::new(ImageFormat::RGBAF32),
            render_task_texture: VertexDataTexture::new(ImageFormat::RGBAF32),
        }
    }

    /// The texture of the primitive headers stored as floats.
    pub fn prim_header_f_texture(&self) -> (array: &VertexDataTexture<F>)
        ensures
            *array == self.prim_headers_f(),
    {
        &self.prim_header_f_texture
    }

    /// The texture of the primitive headers stored as integers.
    pub fn prim_header_i_texture(&self) -> (array: &VertexDataTexture<I>)
        ensures
            *array == self.prim_headers_i(),
    {
        &self.prim_header_i_texture
    }

    /// The texture of the transforms.
    pub fn transforms_texture(&self) -> (array: &VertexDataTexture<X>)
        ensures
            *array == self.transforms(),
    {
        &self.transforms_texture
    }

    /// The texture of the render tasks.
    pub fn render_task_texture(&self) -> (array: &VertexDataTexture<R>)
        ensures
            *array == self.render_tasks(),
    {
        &self.render_task_texture
    }

    /// Updates the four textures from the data of a frame, in the order
    /// float headers, integer headers, transforms, render tasks; then issues
    /// the staged uploads and binds each texture to its sampler.
    ///
    /// Each array is updated as `VertexDataTexture::update` does it, on the
    /// device as the array before it left it. The uploads reach the device
    /// after all four updates, in the same order, and the four bindings
    /// follow.
    pub fn update(
        &mut self,
        device: &mut Device,
        headers_float: &mut Vec<F>,
        headers_int: &mut Vec<I>,
        transform_palette: &mut Vec<X>,
        task_data: &mut Vec<R>,
    )
        requires
            old(self).wf(),
            Self::supported(),
            VertexDataTexture::<F>::can_update(old(headers_float)@.len()),
            VertexDataTexture::<I>::can_update(old(headers_int)@.len()),
            VertexDataTexture::<X>::can_update(old(transform_palette)@.len()),
            VertexDataTexture::<R>::can_update(old(task_data)@.len()),
        ensures
            final(self).wf(),
            final(headers_float)@ == old(headers_float)@,
            final(headers_int)@ == old(headers_int)@,
            final(transform_palette)@ == old(transform_palette)@,
            final(task_data)@ == old(task_data)@,
            ({
                let f = old(self).prim_headers_f();
                let i = old(self).prim_headers_i();
                let x = old(self).transforms();
                let r = old(self).render_tasks();
                let d0 = old(device)@;
                let d1 = f.device_after_update(d0, old(headers_float)@.len());
                let d2 = i.device_after_update(d1, old(headers_int)@.len());
                let d3 = x.device_after_update(d2, old(transform_palette)@.len());
                let d4 = r.device_after_update(d3, old(task_data)@.len());
                let uploads = f.uploads_of_update(d0, old(headers_float)@.len())
                    + i.uploads_of_update(d1, old(headers_int)@.len()) + x.uploads_of_update(
                    d2,
                    old(transform_palette)@.len(),
                ) + r.uploads_of_update(d3, old(task_data)@.len());
                &&& final(self).prim_headers_f()@ == f.texture_after_update(
                    d0,
                    old(headers_float)@.len(),
                )
                &&& final(self).prim_headers_i()@ == i.texture_after_update(
                    d1,
                    old(headers_int)@.len(),
                )
                &&& final(self).transforms()@ == x.texture_after_update(
                    d2,
                    old(transform_palette)@.len(),
                )
                &&& final(self).render_tasks()@ == r.texture_after_update(d3, old(task_data)@.len())
                &&& final(self).prim_headers_f()@ is Some
                &&& final(self).prim_headers_i()@ is Some
                &&& final(self).transforms()@ is Some
                &&& final(self).render_tasks()@ is Some
                &&& final(device)@.live == d4.live
                &&& final(device)@.commands == d4.commands + upload_commands(uploads)
                    + bind_commands(
                    final(self).prim_headers_f()@->0,
                    final(self).prim_headers_i()@->0,
                    final(self).transforms()@->0,
                    final(self).render_tasks()@->0,
                )
            }),
    {
        let mut texture_uploader = device.upload_texture();
        self.prim_header_f_texture.update(device, &mut texture_uploader, headers_float);
        self.prim_header_i_texture.update(device, &mut texture_uploader, headers_int);
        self.transforms_texture.update(device, &mut texture_uploader, transform_palette);
        self.render_task_texture.update(device, &mut texture_uploader, task_data);
        let ghost staged = device@;
        let ghost uploads = texture_uploader@;

        // Flush and drop the texture uploader now, so that the textures can
        // be bound.
        texture_uploader.flush(device);

        device.bind_texture(
            TextureSampler::PrimitiveHeadersF,
            self.prim_header_f_texture.texture(),
            Swizzle::default(),
        );
        device.bind_texture(
            TextureSampler::PrimitiveHeadersI,
            self.prim_header_i_texture.texture(),
            Swizzle::default(),
        );
        device.bind_texture(
            TextureSampler::TransformPalette,
            self.transforms_texture.texture(),
            Swizzle::default(),
        );
        device.bind_texture(
            TextureSampler::RenderTasks,
            self.render_task_texture.texture(),
            Swizzle::default(),
        );
        proof {
            assert(device@.commands =~= staged.commands + upload_commands(uploads) + bind_commands(
                self.prim_headers_f()@->0,
                self.prim_headers_i()@->0,
                self.transforms()@->0,
                self.render_tasks()@->0,
            ));
        }
    }

    /// An estimate of the GPU memory taken by the four textures.
    pub fn size_in_bytes(&self) -> (size: usize)
        requires
            self.wf(),
            self.spec_size_in_bytes() <= usize::MAX,
        ensures
            size == self.spec_size_in_bytes(),
    {
        self.prim_header_f_texture.size_in_bytes() + self.prim_header_i_texture.size_in_bytes()
            + self.transforms_texture.size_in_bytes() + self.render_task_texture.size_in_bytes()
    }

    /// GPU memory taken by the four textures, in bytes.
    pub open spec fn spec_size_in_bytes(&self) -> int {
        self.prim_headers_f().spec_size_in_bytes() + self.prim_headers_i().spec_size_in_bytes()
            + self.transforms().spec_size_in_bytes() + self.render_tasks().spec_size_in_bytes()
    }

    /// Destroys the textures: transforms first, then the float headers, the
    /// integer headers and the render tasks.
    pub fn deinit(self, device: &mut Device)
        ensures
            final(device)@ == self.render_tasks().device_after_deinit(
                self.prim_headers_i().device_after_deinit(
                    self.prim_headers_f().device_after_deinit(
                        self.transforms().device_after_deinit(old(device)@),
                    ),
                ),
            ),
    {
        self.transforms_texture.deinit(device);
        self.prim_header_f_texture.deinit(device);
        self.prim_header_i_texture.deinit(device);
        self.render_task_texture.deinit(device);
    }
}

} // verus!
