use goldenrod::render::binding::{BindingResource, BindingType, StorageTextureAccess};
use goldenrod::render::texture::{
    extent_of, mip_extent, upload_layout, Extent3d, FilterMode, Origin3d, Sampler, Texture,
    TextureDimension, TextureError, TextureFormat, TextureSampleType, TextureType, TextureUsages,
    TextureViewDimension,
};
use goldenrod::render::GpuContext;

fn storage_usage() -> TextureUsages {
    TextureUsages {
        copy_src: false,
        copy_dst: true,
        texture_binding: false,
        storage_binding: true,
        render_attachment: false,
    }
}

#[test]
fn texture_type_dimensions() {
    assert_eq!(TextureType::Texture1d.dimension(), TextureDimension::D1);
    assert_eq!(TextureType::Texture2d.dimension(), TextureDimension::D2);
    assert_eq!(TextureType::Texture2dArray.dimension(), TextureDimension::D2);
    assert_eq!(TextureType::TextureCube.dimension(), TextureDimension::D2);
    assert_eq!(TextureType::TextureCubeArray.dimension(), TextureDimension::D2);
    assert_eq!(TextureType::Texture3d.dimension(), TextureDimension::D3);
}

#[test]
fn texture_type_view_dimensions() {
    assert_eq!(TextureType::Texture1d.view_dimension(), TextureViewDimension::D1);
    assert_eq!(TextureType::Texture2d.view_dimension(), TextureViewDimension::D2);
    assert_eq!(TextureType::Texture2dArray.view_dimension(), TextureViewDimension::D2Array);
    assert_eq!(TextureType::TextureCube.view_dimension(), TextureViewDimension::Cube);
    assert_eq!(TextureType::TextureCubeArray.view_dimension(), TextureViewDimension::CubeArray);
    assert_eq!(TextureType::Texture3d.view_dimension(), TextureViewDimension::D3);
}

#[test]
fn block_copy_size_follows_the_format_table() {
    assert_eq!(TextureFormat::R32Float.block_copy_size(), Some(4));
    assert_eq!(TextureFormat::Rgba32Float.block_copy_size(), Some(16));
    assert_eq!(TextureFormat::Rgba16Float.block_copy_size(), Some(8));
    assert_eq!(TextureFormat::Rgba8UnormSrgb.block_copy_size(), Some(4));
    assert_eq!(TextureFormat::Bgra8UnormSrgb.block_copy_size(), Some(4));
    assert_eq!(TextureFormat::Depth24Plus.block_copy_size(), None);
}

#[test]
fn target_pixel_byte_cost_follows_the_format_table() {
    assert_eq!(TextureFormat::R32Float.target_pixel_byte_cost(), Some(4));
    assert_eq!(TextureFormat::Rgba32Float.target_pixel_byte_cost(), Some(16));
    assert_eq!(TextureFormat::Rgba16Float.target_pixel_byte_cost(), Some(8));
    assert_eq!(TextureFormat::Rgba8UnormSrgb.target_pixel_byte_cost(), Some(8));
    assert_eq!(TextureFormat::Bgra8UnormSrgb.target_pixel_byte_cost(), Some(8));
    assert_eq!(TextureFormat::Depth24Plus.target_pixel_byte_cost(), None);
}

#[test]
fn sample_type_follows_the_format_table() {
    assert_eq!(
        TextureFormat::Rgba32Float.sample_type(true),
        Some(TextureSampleType::Float { filterable: true })
    );
    assert_eq!(
        TextureFormat::Rgba32Float.sample_type(false),
        Some(TextureSampleType::Float { filterable: false })
    );
    assert_eq!(
        TextureFormat::R32Float.sample_type(false),
        Some(TextureSampleType::Float { filterable: false })
    );
    assert_eq!(
        TextureFormat::Rgba16Float.sample_type(false),
        Some(TextureSampleType::Float { filterable: true })
    );
    assert_eq!(
        TextureFormat::Bgra8UnormSrgb.sample_type(false),
        Some(TextureSampleType::Float { filterable: true })
    );
    assert_eq!(TextureFormat::Depth24Plus.sample_type(true), Some(TextureSampleType::Depth));
}

#[test]
fn usages_union() {
    let a = TextureUsages { copy_src: true, ..TextureUsages::empty() };
    let b = TextureUsages { storage_binding: true, ..TextureUsages::empty() };
    assert_eq!(
        a.union(b),
        TextureUsages {
            copy_src: true,
            copy_dst: false,
            texture_binding: false,
            storage_binding: true,
            render_attachment: false,
        }
    );
    assert_eq!(a.union(TextureUsages::empty()), a);
}

#[test]
fn extent_is_cut_to_32_bits() {
    assert_eq!(
        extent_of((800, 600, 1)),
        Extent3d { width: 800, height: 600, depth_or_array_layers: 1 }
    );
    assert_eq!(
        extent_of((0x1_0000_0005, 2, 3)),
        Extent3d { width: 5, height: 2, depth_or_array_layers: 3 }
    );
}

#[test]
fn mip_extent_halves_and_stops_at_one() {
    assert_eq!(mip_extent(800, 0), 800);
    assert_eq!(mip_extent(800, 1), 400);
    assert_eq!(mip_extent(800, 3), 100);
    assert_eq!(mip_extent(800, 10), 1);
    assert_eq!(mip_extent(1, 31), 1);
    assert_eq!(mip_extent(0, 0), 1);
}

#[test]
fn upload_layout_packs_rows() {
    let write = upload_layout(7, 16, (471, 1, 1), (0, 0, 0), 0, None).unwrap();
    assert_eq!(write.texture, 7);
    assert_eq!(write.bytes_per_row, 7536);
    assert_eq!(write.rows_per_image, None);
    assert_eq!(write.origin, Origin3d { x: 0, y: 0, z: 0 });
    assert_eq!(write.extent, Extent3d { width: 471, height: 1, depth_or_array_layers: 1 });
    assert_eq!(write.mip_level, 0);
}

#[test]
fn upload_layout_refuses_a_row_that_is_too_long() {
    assert_eq!(
        upload_layout(0, 16, (0x1000_0000, 1, 1), (0, 0, 0), 0, None),
        Err(TextureError::RowTooLong)
    );
    assert!(upload_layout(0, 16, (0x0fff_ffff, 1, 1), (0, 0, 0), 0, None).is_ok());
}

#[test]
fn new_texture_takes_a_fresh_identity() {
    let mut gpu = GpuContext::new(true);
    let a = Texture::new(
        &mut gpu,
        "a".to_string(),
        (16, 8, 1),
        1,
        TextureFormat::Rgba32Float,
        storage_usage(),
        TextureType::Texture2d,
    );
    let b = Texture::new(
        &mut gpu,
        "b".to_string(),
        (16, 8, 4),
        3,
        TextureFormat::R32Float,
        storage_usage(),
        TextureType::Texture3d,
    );
    assert_eq!(a.inner(), 0);
    assert_eq!(b.inner(), 1);
    assert_eq!(gpu.remaining(), u64::MAX - 2);
    assert_eq!(a.desc().label, "a");
    assert_eq!(a.desc().size, Extent3d { width: 16, height: 8, depth_or_array_layers: 1 });
    assert_eq!(a.desc().mip_level_count, 1);
    assert_eq!(a.desc().sample_count, 1);
    assert_eq!(a.desc().dimension, TextureDimension::D2);
    assert_eq!(a.desc().format, TextureFormat::Rgba32Float);
    assert_eq!(a.desc().usage, storage_usage());
    assert!(a.desc().view_formats.is_empty());
    assert_eq!(a.ty(), TextureType::Texture2d);
    assert_eq!(b.desc().dimension, TextureDimension::D3);
    assert_eq!(b.desc().mip_level_count, 3);
}

#[test]
fn recreate_keeps_the_descriptor_and_changes_the_identity() {
    let mut gpu = GpuContext::new(true);
    let mut texture = Texture::new(
        &mut gpu,
        "t".to_string(),
        (4, 4, 1),
        1,
        TextureFormat::Rgba32Float,
        storage_usage(),
        TextureType::Texture2d,
    );
    let before = texture.desc().duplicate();
    texture.recreate(&mut gpu);
    assert_eq!(texture.inner(), 1);
    assert_eq!(texture.desc().label, before.label);
    assert_eq!(texture.desc().size, before.size);
    assert_eq!(texture.desc().format, before.format);
    assert_eq!(texture.desc().usage, before.usage);
}

#[test]
fn write_uses_the_cost_per_pixel_as_a_target() {
    let mut gpu = GpuContext::new(true);
    let texture = Texture::new(
        &mut gpu,
        "t".to_string(),
        (64, 32, 1),
        1,
        TextureFormat::Rgba8UnormSrgb,
        storage_usage(),
        TextureType::Texture2d,
    );
    let write = texture.write((10, 5, 1), (1, 2, 0), 0).unwrap();
    assert_eq!(write.bytes_per_row, 80);
    assert_eq!(write.rows_per_image, Some(5));
    assert_eq!(write.origin, Origin3d { x: 1, y: 2, z: 0 });
    assert_eq!(write.extent, Extent3d { width: 10, height: 5, depth_or_array_layers: 1 });
}

#[test]
fn write_refuses_a_format_that_is_no_target() {
    let mut gpu = GpuContext::new(true);
    let texture = Texture::new(
        &mut gpu,
        "depth".to_string(),
        (64, 32, 1),
        1,
        TextureFormat::Depth24Plus,
        storage_usage(),
        TextureType::Texture2d,
    );
    assert_eq!(texture.write((1, 1, 1), (0, 0, 0), 0), Err(TextureError::FormatNotWritable));
    assert_eq!(texture.write_whole(0), Err(TextureError::FormatNotWritable));
}

#[test]
fn write_whole_covers_the_mip_level() {
    let mut gpu = GpuContext::new(true);
    let texture = Texture::new(
        &mut gpu,
        "t".to_string(),
        (64, 32, 1),
        4,
        TextureFormat::Rgba32Float,
        storage_usage(),
        TextureType::Texture2d,
    );
    let write = texture.write_whole(2).unwrap();
    assert_eq!(write.mip_level, 2);
    assert_eq!(write.extent, Extent3d { width: 16, height: 8, depth_or_array_layers: 1 });
    assert_eq!(write.bytes_per_row, 256);
    assert_eq!(write.rows_per_image, Some(8));
    assert_eq!(write.origin, Origin3d { x: 0, y: 0, z: 0 });
}

#[test]
fn views_of_a_texture() {
    let mut gpu = GpuContext::new(true);
    let texture = Texture::new(
        &mut gpu,
        "t".to_string(),
        (64, 32, 6),
        4,
        TextureFormat::Rgba16Float,
        storage_usage(),
        TextureType::TextureCube,
    );
    let view = texture.view((1, 3), (0, 6));
    assert_eq!(view.texture, 0);
    assert_eq!(view.format, Some(TextureFormat::Rgba16Float));
    assert_eq!(view.dimension, Some(TextureViewDimension::Cube));
    assert_eq!(view.base_mip_level, 1);
    assert_eq!(view.mip_level_count, Some(2));
    assert_eq!(view.base_array_layer, 0);
    assert_eq!(view.array_layer_count, Some(6));
    let whole = texture.default_view();
    assert_eq!(whole.texture, 0);
    assert_eq!(whole.format, None);
    assert_eq!(whole.dimension, None);
    assert_eq!(whole.mip_level_count, None);
    assert_eq!(whole.array_layer_count, None);
}

#[test]
fn bind_view_takes_the_sample_type_of_the_format() {
    let mut gpu = GpuContext::new(false);
    let texture = Texture::new(
        &mut gpu,
        "t".to_string(),
        (64, 32, 1),
        1,
        TextureFormat::Rgba32Float,
        storage_usage(),
        TextureType::Texture2d,
    );
    let entry = texture.bind_view(texture.default_view(), gpu.float32_filterable());
    assert_eq!(
        entry.binding_type,
        BindingType::Texture {
            sample_type: TextureSampleType::Float { filterable: false },
            view_dimension: TextureViewDimension::D2,
            multisampled: false,
        }
    );
    assert_eq!(entry.count, None);
    assert_eq!(entry.resource, BindingResource::TextureView(texture.default_view()));
}

#[test]
fn bind_storage_takes_format_and_shape() {
    let mut gpu = GpuContext::new(false);
    let texture = Texture::new(
        &mut gpu,
        "t".to_string(),
        (64, 32, 4),
        1,
        TextureFormat::Rgba32Float,
        storage_usage(),
        TextureType::Texture3d,
    );
    let entry = texture.bind_storage(texture.default_view(), StorageTextureAccess::WriteOnly);
    assert_eq!(
        entry.binding_type,
        BindingType::StorageTexture {
            access: StorageTextureAccess::WriteOnly,
            format: TextureFormat::Rgba32Float,
            view_dimension: TextureViewDimension::D3,
        }
    );
}

#[test]
fn load_raw_lays_out_a_packed_upload() {
    let mut gpu = GpuContext::new(true);
    let raw = Texture::load_raw(
        &mut gpu,
        "assets/textures/lut.bin",
        Some(vec![6; 4096]),
        (1024, 1, 1),
        TextureFormat::R32Float,
        storage_usage(),
        TextureType::Texture1d,
    )
    .unwrap();
    let (texture, write) = (raw.texture, raw.write);
    assert_eq!(raw.contents, vec![6u8; 4096]);
    assert_eq!(gpu.created(), 1);
    assert_eq!(texture.inner(), 0);
    assert_eq!(texture.desc().label, "lut.bin");
    assert_eq!(texture.desc().mip_level_count, 1);
    assert_eq!(texture.desc().dimension, TextureDimension::D1);
    assert_eq!(write.texture, 0);
    assert_eq!(write.bytes_per_row, 4096);
    assert_eq!(write.rows_per_image, None);
    assert_eq!(write.extent, Extent3d { width: 1024, height: 1, depth_or_array_layers: 1 });
}

#[test]
fn load_raw_of_a_volume_states_the_rows_per_image() {
    let mut gpu = GpuContext::new(true);
    let write = Texture::load_raw(
        &mut gpu,
        "volume.bin",
        Some(vec![0; 8 * 4 * 2 * 16]),
        (8, 4, 2),
        TextureFormat::Rgba32Float,
        storage_usage(),
        TextureType::Texture3d,
    )
    .unwrap()
    .write;
    assert_eq!(write.bytes_per_row, 128);
    assert_eq!(write.rows_per_image, Some(4));
}

#[test]
fn load_raw_refuses_a_format_without_a_copy_size() {
    let mut gpu = GpuContext::new(true);
    let loaded = Texture::load_raw(
        &mut gpu,
        "depth.bin",
        Some(vec![0; 128]),
        (8, 4, 1),
        TextureFormat::Depth24Plus,
        storage_usage(),
        TextureType::Texture2d,
    );
    assert_eq!(loaded.err(), Some(TextureError::FormatNotWritable));
    assert_eq!(gpu.created(), 0);
}

#[test]
fn load_raw_refuses_a_file_that_was_not_read() {
    let mut gpu = GpuContext::new(true);
    let loaded = Texture::load_raw(
        &mut gpu,
        "lut.bin",
        None,
        (1024, 1, 1),
        TextureFormat::R32Float,
        storage_usage(),
        TextureType::Texture1d,
    );
    assert_eq!(loaded.err(), Some(TextureError::Unreadable));
    assert_eq!(gpu.created(), 0);
}

#[test]
fn load_raw_refuses_a_row_that_is_too_long() {
    let mut gpu = GpuContext::new(true);
    let loaded = Texture::load_raw(
        &mut gpu,
        "wide.bin",
        Some(Vec::new()),
        (0x4000_0000, 1, 1),
        TextureFormat::Rgba32Float,
        storage_usage(),
        TextureType::Texture1d,
    );
    assert_eq!(loaded.err(), Some(TextureError::RowTooLong));
    assert_eq!(gpu.created(), 0);
}

#[test]
fn sampler_takes_a_fresh_identity() {
    let mut gpu = GpuContext::new(true);
    let _ = gpu.allocate();
    let sampler = Sampler::new(&mut gpu, "s", FilterMode::Linear, FilterMode::Nearest);
    assert_eq!(sampler.id, 1);
    assert_eq!(sampler.label, "s");
    assert_eq!(sampler.mag_filter, FilterMode::Linear);
    assert_eq!(sampler.min_filter, FilterMode::Nearest);
}

#[test]
fn load_named_takes_the_name_as_it_is() {
    let mut gpu = GpuContext::new(true);
    let raw = Texture::load_named(
        &mut gpu,
        "curve".to_string(),
        Some(vec![1; 16]),
        (4, 1, 1),
        TextureFormat::R32Float,
        storage_usage(),
        TextureType::Texture1d,
    )
    .unwrap();
    assert_eq!(raw.texture.desc().label, "curve");
    assert_eq!(raw.write.bytes_per_row, 16);
    assert_eq!(raw.contents, vec![1u8; 16]);
}
