use vertex_staging::device::{
    Device, DeviceCommand, ImageBufferKind, ImageFormat, Swizzle, Texture, TextureFilter,
    TextureId, TextureSampler, TextureUploader,
};
use vertex_staging::texture::{VertexDataTexture, VertexDataTextures};
use vertex_staging::units::{TEXEL_SIZE, VERTEX_TEXTURE_EXTRA_ROWS, VERTICES_PER_INSTANCE};
use webrender_api::units::{DeviceIntPoint, DeviceIntRect, DeviceIntSize};

type Texel = [u32; 4];
type Pair = [u32; 8];
type Odd = [u32; 12];

fn rect(width: i32, height: i32) -> DeviceIntRect {
    DeviceIntRect::new(DeviceIntPoint::new(0, 0), DeviceIntPoint::new(width, height))
}

fn texture_of(id: usize, format: ImageFormat, height: i32) -> Texture {
    Texture {
        id: TextureId(id),
        target: ImageBufferKind::Texture2D,
        format,
        width: 1024,
        height,
        filter: TextureFilter::Nearest,
        layer_count: 1,
    }
}

fn update_with<T: Clone>(
    array: &mut VertexDataTexture<T>,
    device: &mut Device,
    item: T,
    len: usize,
) -> TextureUploader {
    let mut uploader = device.upload_texture();
    let mut data = vec![item; len];
    array.update(device, &mut uploader, &mut data);
    assert_eq!(data.len(), len);
    uploader
}

#[test]
fn the_fixed_quantities() {
    assert_eq!(VertexDataTexture::<Texel>::items_per_row(), 1024);
    assert_eq!(
        VertexDataTexture::<Texel>::items_per_row(),
        webrender_build::MAX_VERTEX_TEXTURE_WIDTH
    );
    assert_eq!(VertexDataTexture::<Pair>::items_per_row(), 512);
    assert_eq!(VertexDataTexture::<Odd>::items_per_row(), 341);
    assert_eq!(VertexDataTexture::<[u32; 4096]>::items_per_row(), 1);
    assert_eq!(TEXEL_SIZE, 16);
    assert_eq!(VERTEX_TEXTURE_EXTRA_ROWS, 10);
    assert_eq!(VERTICES_PER_INSTANCE, 4);
}

#[test]
fn update_pads_to_whole_rows() {
    let mut device = Device::new();
    let mut array: VertexDataTexture<Texel> = VertexDataTexture::new(ImageFormat::RGBAF32);
    let uploader = update_with(&mut array, &mut device, [0; 4], 1500);
    assert_eq!(array.texture(), &texture_of(0, ImageFormat::RGBAF32, 2));
    assert_eq!(uploader.staged().len(), 1);
    assert_eq!(uploader.staged()[0].len, 2048);
    assert_eq!(uploader.staged()[0].texture, TextureId(0));
    assert_eq!(uploader.staged()[0].rect, rect(1024, 2));
    assert_eq!(
        device.commands(),
        &vec![DeviceCommand::CreateTexture { texture: texture_of(0, ImageFormat::RGBAF32, 2) }]
    );

    // Less data afterwards keeps the texture: the rows saved are within the
    // allowance.
    device.take_commands();
    let uploader = update_with(&mut array, &mut device, [0; 4], 3);
    assert_eq!(array.texture(), &texture_of(0, ImageFormat::RGBAF32, 2));
    assert!(device.commands().is_empty());
    assert_eq!(uploader.staged()[0].len, 1024);
    assert_eq!(uploader.staged()[0].rect, rect(3, 1));
}

#[test]
fn a_texture_of_one_row_is_replaced_when_two_are_needed() {
    let mut device = Device::new();
    let mut array: VertexDataTexture<Pair> = VertexDataTexture::new(ImageFormat::RGBAI32);
    // 512 records of two texels fill one row; the texture still has two rows.
    update_with(&mut array, &mut device, [0; 8], 512);
    assert_eq!(array.texture().height, 2);
    update_with(&mut array, &mut device, [0; 8], 1024);
    assert_eq!(array.texture(), &texture_of(0, ImageFormat::RGBAI32, 2));
    device.take_commands();
    let uploader = update_with(&mut array, &mut device, [0; 8], 1025);
    assert_eq!(array.texture(), &texture_of(1, ImageFormat::RGBAI32, 3));
    assert_eq!(
        device.commands(),
        &vec![
            DeviceCommand::DeleteTexture { texture_id: TextureId(0) },
            DeviceCommand::CreateTexture { texture: texture_of(1, ImageFormat::RGBAI32, 3) },
        ]
    );
    assert!(!device.is_live(0));
    assert!(device.is_live(1));
    assert_eq!(uploader.staged()[0].len, 3 * 512);
    assert_eq!(uploader.staged()[0].rect, rect(1024, 3));
    assert_eq!(uploader.staged()[0].texture, TextureId(1));
}

#[test]
fn the_texture_is_at_least_as_high_as_the_rows_needed() {
    for len in [1usize, 2, 1023, 1024, 1025, 2048, 2049, 5000, 12 * 1024 + 1] {
        let mut device = Device::new();
        let mut array: VertexDataTexture<Texel> = VertexDataTexture::new(ImageFormat::RGBAF32);
        update_with(&mut array, &mut device, [0; 4], len);
        let needed = (len + 1023) / 1024;
        assert!(array.texture().height as usize >= needed);
        assert!(array.texture().height >= 2);
        assert_eq!(array.texture().height as usize, needed.max(2));
    }
}

#[test]
fn the_texture_shrinks_only_past_the_allowance() {
    let mut device = Device::new();
    let mut array: VertexDataTexture<Texel> = VertexDataTexture::new(ImageFormat::RGBAF32);
    update_with(&mut array, &mut device, [0; 4], 20 * 1024);
    assert_eq!(array.texture(), &texture_of(0, ImageFormat::RGBAF32, 20));
    // Ten rows fewer: kept.
    update_with(&mut array, &mut device, [0; 4], 10 * 1024);
    assert_eq!(array.texture(), &texture_of(0, ImageFormat::RGBAF32, 20));
    // Eleven rows fewer: replaced.
    update_with(&mut array, &mut device, [0; 4], 9 * 1024);
    assert_eq!(array.texture(), &texture_of(1, ImageFormat::RGBAF32, 9));
    // Growing within the texture keeps it; growing past it replaces it.
    update_with(&mut array, &mut device, [0; 4], 9 * 1024);
    assert_eq!(array.texture().id, TextureId(1));
    update_with(&mut array, &mut device, [0; 4], 9 * 1024 + 1);
    assert_eq!(array.texture(), &texture_of(2, ImageFormat::RGBAF32, 10));
}

#[test]
fn no_data_and_no_texture_uploads_one_row() {
    let mut device = Device::new();
    let mut array: VertexDataTexture<Texel> = VertexDataTexture::new(ImageFormat::RGBAF32);
    let uploader = update_with(&mut array, &mut device, [0; 4], 0);
    assert_eq!(array.texture(), &texture_of(0, ImageFormat::RGBAF32, 2));
    assert_eq!(uploader.staged().len(), 1);
    assert_eq!(uploader.staged()[0].len, 1024);
    assert_eq!(uploader.staged()[0].rect, rect(0, 1));
}

#[test]
fn no_data_and_a_texture_does_nothing() {
    let mut device = Device::new();
    let mut array: VertexDataTexture<Texel> = VertexDataTexture::new(ImageFormat::RGBAF32);
    update_with(&mut array, &mut device, [0; 4], 5000);
    device.take_commands();
    let uploader = update_with(&mut array, &mut device, [0; 4], 0);
    assert!(uploader.staged().is_empty());
    assert!(device.commands().is_empty());
    assert_eq!(array.texture(), &texture_of(0, ImageFormat::RGBAF32, 5));
}

#[test]
fn rows_hold_whole_records_only() {
    let mut device = Device::new();
    let mut array: VertexDataTexture<Odd> = VertexDataTexture::new(ImageFormat::RGBAF32);
    // Records of three texels: 341 to a row, one texel of each row unused.
    let uploader = update_with(&mut array, &mut device, [0; 12], 342);
    assert_eq!(uploader.staged()[0].len, 682);
    assert_eq!(uploader.staged()[0].rect, rect(1023, 2));
    let uploader = update_with(&mut array, &mut device, [0; 12], 341);
    assert_eq!(uploader.staged()[0].len, 341);
    assert_eq!(uploader.staged()[0].rect, rect(1023, 1));
    let uploader = update_with(&mut array, &mut device, [0; 12], 2);
    assert_eq!(uploader.staged()[0].rect, rect(6, 1));
    assert_eq!(uploader.staged()[0].rect.min, DeviceIntPoint::new(0, 0));
    assert_eq!(uploader.staged()[0].rect.size(), DeviceIntSize::new(6, 1));
}

#[test]
fn size_in_bytes_counts_sixteen_bytes_a_texel() {
    let mut device = Device::new();
    let mut array: VertexDataTexture<Texel> = VertexDataTexture::new(ImageFormat::RGBAF32);
    assert_eq!(array.size_in_bytes(), 0);
    update_with(&mut array, &mut device, [0; 4], 3000);
    assert_eq!(array.size_in_bytes(), 16 * 1024 * 3);
    assert_eq!(array.format(), ImageFormat::RGBAF32);
}

#[test]
fn bytes_per_pixel_of_each_format() {
    assert_eq!(ImageFormat::R8.bytes_per_pixel(), 1);
    assert_eq!(ImageFormat::R16.bytes_per_pixel(), 2);
    assert_eq!(ImageFormat::BGRA8.bytes_per_pixel(), 4);
    assert_eq!(ImageFormat::RGBAF32.bytes_per_pixel(), 16);
    assert_eq!(ImageFormat::RG8.bytes_per_pixel(), 2);
    assert_eq!(ImageFormat::RG16.bytes_per_pixel(), 4);
    assert_eq!(ImageFormat::RGBAI32.bytes_per_pixel(), 16);
    assert_eq!(ImageFormat::RGBA8.bytes_per_pixel(), 4);
    let texture = Texture {
        id: TextureId(3),
        target: ImageBufferKind::Texture2D,
        format: ImageFormat::RG16,
        width: 10,
        height: 5,
        filter: TextureFilter::Linear,
        layer_count: 2,
    };
    assert_eq!(texture.size_in_bytes(), 400);
}

#[test]
fn deinit_destroys_the_texture() {
    let mut device = Device::new();
    let mut array: VertexDataTexture<Texel> = VertexDataTexture::new(ImageFormat::RGBAF32);
    update_with(&mut array, &mut device, [0; 4], 1);
    device.take_commands();
    array.deinit(&mut device);
    assert_eq!(device.commands(), &vec![DeviceCommand::DeleteTexture { texture_id: TextureId(0) }]);
    assert!(!device.is_live(0));
    let never_used: VertexDataTexture<Texel> = VertexDataTexture::new(ImageFormat::RGBAF32);
    device.take_commands();
    never_used.deinit(&mut device);
    assert!(device.commands().is_empty());
}

#[test]
fn the_four_textures_are_updated_uploaded_and_bound() {
    let mut device = Device::new();
    let mut textures: VertexDataTextures<Pair, Pair, Texel, Texel> = VertexDataTextures::new();
    let mut headers_float: Vec<Pair> = vec![[1; 8]; 513];
    let mut headers_int: Vec<Pair> = vec![[2; 8]; 3];
    let mut transforms: Vec<Texel> = Vec::new();
    let mut tasks: Vec<Texel> = vec![[4; 4]; 3000];
    textures.update(
        &mut device,
        &mut headers_float,
        &mut headers_int,
        &mut transforms,
        &mut tasks,
    );
    assert_eq!(headers_float.len(), 513);
    assert_eq!(tasks.len(), 3000);
    let f = texture_of(0, ImageFormat::RGBAF32, 2);
    let i = texture_of(1, ImageFormat::RGBAI32, 2);
    let x = texture_of(2, ImageFormat::RGBAF32, 2);
    let r = texture_of(3, ImageFormat::RGBAF32, 3);
    assert_eq!(textures.prim_header_f_texture().texture(), &f);
    assert_eq!(textures.prim_header_i_texture().texture(), &i);
    assert_eq!(textures.transforms_texture().texture(), &x);
    assert_eq!(textures.render_task_texture().texture(), &r);
    let commands = device.commands();
    assert_eq!(commands.len(), 12);
    assert_eq!(commands[0], DeviceCommand::CreateTexture { texture: f });
    assert_eq!(commands[1], DeviceCommand::CreateTexture { texture: i });
    assert_eq!(commands[2], DeviceCommand::CreateTexture { texture: x });
    assert_eq!(commands[3], DeviceCommand::CreateTexture { texture: r });
    match &commands[4] {
        DeviceCommand::UploadTexture { upload } => {
            assert_eq!(upload.texture, TextureId(0));
            assert_eq!(upload.len, 1024);
            assert_eq!(upload.rect, rect(1024, 2));
        }
        other => panic!("{:?}", other),
    }
    match &commands[5] {
        DeviceCommand::UploadTexture { upload } => {
            assert_eq!(upload.texture, TextureId(1));
            assert_eq!(upload.len, 512);
            assert_eq!(upload.rect, rect(6, 1));
        }
        other => panic!("{:?}", other),
    }
    match &commands[6] {
        DeviceCommand::UploadTexture { upload } => {
            assert_eq!(upload.texture, TextureId(2));
            assert_eq!(upload.len, 1024);
            assert_eq!(upload.rect, rect(0, 1));
        }
        other => panic!("{:?}", other),
    }
    match &commands[7] {
        DeviceCommand::UploadTexture { upload } => {
            assert_eq!(upload.texture, TextureId(3));
            assert_eq!(upload.len, 3072);
            assert_eq!(upload.rect, rect(1024, 3));
        }
        other => panic!("{:?}", other),
    }
    assert_eq!(
        &commands[8..],
        &[
            DeviceCommand::BindTexture {
                sampler: TextureSampler::PrimitiveHeadersF,
                texture_id: TextureId(0),
                swizzle: Swizzle::Rgba,
            },
            DeviceCommand::BindTexture {
                sampler: TextureSampler::PrimitiveHeadersI,
                texture_id: TextureId(1),
                swizzle: Swizzle::Rgba,
            },
            DeviceCommand::BindTexture {
                sampler: TextureSampler::TransformPalette,
                texture_id: TextureId(2),
                swizzle: Swizzle::Rgba,
            },
            DeviceCommand::BindTexture {
                sampler: TextureSampler::RenderTasks,
                texture_id: TextureId(3),
                swizzle: Swizzle::Rgba,
            },
        ][..]
    );
    assert_eq!(textures.size_in_bytes(), 16 * 1024 * (2 + 2 + 2 + 3));

    device.take_commands();
    textures.deinit(&mut device);
    assert_eq!(
        device.commands(),
        &vec![
            DeviceCommand::DeleteTexture { texture_id: TextureId(2) },
            DeviceCommand::DeleteTexture { texture_id: TextureId(0) },
            DeviceCommand::DeleteTexture { texture_id: TextureId(1) },
            DeviceCommand::DeleteTexture { texture_id: TextureId(3) },
        ]
    );
}

#[test]
fn records_are_made_of_whole_texels() {
    assert!(VertexDataTexture::<Texel>::is_supported());
    assert!(VertexDataTexture::<Pair>::is_supported());
    assert!(VertexDataTexture::<Odd>::is_supported());
    assert!(VertexDataTexture::<[u32; 4096]>::is_supported());
    assert!(!VertexDataTexture::<[u32; 4100]>::is_supported());
    assert!(!VertexDataTexture::<u32>::is_supported());
    assert!(!VertexDataTexture::<[u32; 5]>::is_supported());
    assert!(!VertexDataTexture::<()>::is_supported());
}

#[test]
fn rows_are_counted_in_thirty_two_bits() {
    assert!(VertexDataTexture::<Texel>::can_hold(0));
    assert!(VertexDataTexture::<Texel>::can_hold(1));
    let most_rows = (i32::MAX - 10) as usize;
    assert!(VertexDataTexture::<Texel>::can_hold(most_rows * 1024));
    assert!(!VertexDataTexture::<Texel>::can_hold(most_rows * 1024 + 1));
    assert!(VertexDataTexture::<Pair>::can_hold(most_rows * 512));
    assert!(!VertexDataTexture::<Pair>::can_hold(most_rows * 512 + 1));
    assert!(!VertexDataTexture::<Texel>::can_hold(usize::MAX));
}
