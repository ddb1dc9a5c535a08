use goldenrod::render::binding::{
    bind_buffer_storage, bind_buffer_uniform, bind_sampler, bind_storage_texture, bind_texture,
    create_linked, BindGroupEntry, BindGroupLayoutEntry, Binding, BindingEntry, BindingResource,
    BindingType, BufferBindingType, SamplerBindingType, StorageTextureAccess,
};
use goldenrod::render::texture::{
    TextureFormat, TextureSampleType, TextureView, TextureViewDimension,
};
use goldenrod::render::GpuContext;

fn view_of(texture: u64) -> TextureView {
    TextureView {
        texture,
        format: None,
        dimension: None,
        base_mip_level: 0,
        mip_level_count: None,
        base_array_layer: 0,
        array_layer_count: None,
    }
}

#[test]
fn build_numbers_the_slot_and_keeps_type_and_resource() {
    let entry = bind_buffer_uniform(9);
    let (layout, group) = entry.build(3);
    assert_eq!(
        layout,
        BindGroupLayoutEntry { binding: 3, ty: entry.binding_type, count: None }
    );
    assert_eq!(group, BindGroupEntry { binding: 3, resource: entry.resource });
}

#[test]
fn build_drops_an_array_size_of_zero() {
    let mut entry = bind_sampler(1, SamplerBindingType::Filtering);
    entry.count = Some(0);
    assert_eq!(entry.build(0).0.count, None);
    entry.count = Some(4);
    assert_eq!(entry.build(0).0.count, Some(4));
    entry.count = Some(0x1_0000_0000);
    assert_eq!(entry.build(0).0.count, None);
}

#[test]
fn new_binding_derives_layout_and_group_in_order() {
    let mut gpu = GpuContext::new(true);
    let entries = [
        bind_buffer_uniform(10),
        bind_texture(
            view_of(11),
            TextureSampleType::Float { filterable: true },
            TextureViewDimension::D2,
        ),
        bind_sampler(12, SamplerBindingType::NonFiltering),
    ];
    let binding = Binding::new(&mut gpu, &entries);
    assert_eq!(binding.bind_group_layout().id, 0);
    assert_eq!(binding.bind_group().id, 1);
    assert_eq!(binding.bind_group().layout, 0);
    assert_eq!(gpu.remaining(), u64::MAX - 2);
    assert_eq!(binding.bind_group_layout().entries.len(), 3);
    for (i, entry) in entries.iter().enumerate() {
        assert_eq!(binding.bind_group_layout().entries[i].binding, i as u32);
        assert_eq!(binding.bind_group_layout().entries[i].ty, entry.binding_type);
        assert_eq!(binding.bind_group_layout().entries[i].count, None);
        assert_eq!(binding.bind_group().entries[i].binding, i as u32);
        assert_eq!(binding.bind_group().entries[i].resource, entry.resource);
    }
}

#[test]
fn same_shape_gives_the_same_layout() {
    let mut gpu = GpuContext::new(true);
    let a = Binding::new(&mut gpu, &[bind_buffer_uniform(1), bind_buffer_storage(2, true)]);
    let b = Binding::new(&mut gpu, &[bind_buffer_uniform(7), bind_buffer_storage(8, true)]);
    assert_eq!(a.bind_group_layout().entries, b.bind_group_layout().entries);
    assert_ne!(a.bind_group().entries, b.bind_group().entries);
    let c = Binding::new(&mut gpu, &[bind_buffer_storage(2, true), bind_buffer_uniform(1)]);
    assert_ne!(a.bind_group_layout().entries, c.bind_group_layout().entries);
}

#[test]
fn rebind_keeps_the_layout_and_makes_a_new_group() {
    let mut gpu = GpuContext::new(true);
    let mut binding = Binding::new(
        &mut gpu,
        &[
            bind_storage_texture(
                view_of(20),
                TextureFormat::Rgba32Float,
                TextureViewDimension::D2,
                StorageTextureAccess::ReadWrite,
            ),
            bind_sampler(21, SamplerBindingType::Filtering),
        ],
    );
    let layout_id = binding.bind_group_layout().id;
    let layout_entries = binding.bind_group_layout().entries.clone();
    binding.rebind(
        &mut gpu,
        &[BindingResource::TextureView(view_of(30)), BindingResource::Sampler(21)],
    );
    assert_eq!(binding.bind_group_layout().id, layout_id);
    assert_eq!(binding.bind_group_layout().entries, layout_entries);
    assert_eq!(binding.bind_group().id, 2);
    assert_eq!(binding.bind_group().layout, layout_id);
    assert_eq!(
        binding.bind_group().entries,
        vec![
            BindGroupEntry { binding: 0, resource: BindingResource::TextureView(view_of(30)) },
            BindGroupEntry { binding: 1, resource: BindingResource::Sampler(21) },
        ]
    );
}

#[test]
fn empty_binding_has_no_slot() {
    let mut gpu = GpuContext::new(true);
    let binding = Binding::new(&mut gpu, &[]);
    assert!(binding.bind_group_layout().entries.is_empty());
    assert!(binding.bind_group().entries.is_empty());
}

#[test]
fn create_linked_links_the_group_to_the_layout() {
    let mut gpu = GpuContext::new(true);
    let _ = gpu.allocate();
    let entry = bind_buffer_uniform(0);
    let (layout_entry, group_entry) = entry.build(0);
    let (layout, group) = create_linked(&mut gpu, vec![layout_entry], vec![group_entry]);
    assert_eq!(layout.id, 1);
    assert_eq!(group.id, 2);
    assert_eq!(group.layout, 1);
    assert_eq!(layout.entries, vec![layout_entry]);
    assert_eq!(group.entries, vec![group_entry]);
}

#[test]
fn entry_helpers() {
    assert_eq!(
        bind_buffer_storage(5, false),
        BindingEntry {
            binding_type: BindingType::Buffer {
                ty: BufferBindingType::Storage { read_only: false },
                has_dynamic_offset: false,
                min_binding_size: None,
            },
            count: None,
            resource: BindingResource::Buffer { buffer: 5, offset: 0, size: None },
        }
    );
    assert_eq!(
        bind_sampler(6, SamplerBindingType::Comparison),
        BindingEntry {
            binding_type: BindingType::Sampler(SamplerBindingType::Comparison),
            count: None,
            resource: BindingResource::Sampler(6),
        }
    );
    assert_eq!(
        bind_storage_texture(
            view_of(7),
            TextureFormat::R32Float,
            TextureViewDimension::D1,
            StorageTextureAccess::ReadOnly
        )
        .binding_type,
        BindingType::StorageTexture {
            access: StorageTextureAccess::ReadOnly,
            format: TextureFormat::R32Float,
            view_dimension: TextureViewDimension::D1,
        }
    );
}
