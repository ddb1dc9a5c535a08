use goldenrod::render::binding::{BindingResource, BindingType, BufferBindingType};
use goldenrod::render::buffer::{
    bound_size, Buffer, BufferOverflow, BufferUsages, BufferVec, BufferWrite,
};
use goldenrod::render::GpuContext;

fn uniform_usage() -> BufferUsages {
    BufferUsages {
        uniform: true,
        storage: false,
        copy_src: false,
        copy_dst: true,
        map_read: false,
        query_resolve: false,
    }
}

#[test]
fn with_data_holds_the_data() {
    let mut gpu = GpuContext::new(true);
    let buffer = Buffer::with_data(&mut gpu, "b", &[1, 2, 3], uniform_usage());
    assert_eq!(buffer.id(), 0);
    assert_eq!(buffer.size(), 3);
    assert_eq!(buffer.label(), "b");
    assert_eq!(buffer.usage(), uniform_usage());
    assert_eq!(buffer.read_back(), &vec![1, 2, 3]);
}

#[test]
fn with_size_holds_zeros() {
    let mut gpu = GpuContext::new(true);
    let buffer = Buffer::with_size(&mut gpu, "b", 5, uniform_usage());
    assert_eq!(buffer.size(), 5);
    assert_eq!(buffer.read_back(), &vec![0u8; 5]);
    let empty = Buffer::with_size(&mut gpu, "e", 0, uniform_usage());
    assert_eq!(empty.size(), 0);
    assert_eq!(empty.id(), 1);
}

#[test]
fn write_then_read_back_round_trips_for_every_length() {
    let capacity = 64usize;
    for n in 0..=capacity {
        let mut gpu = GpuContext::new(true);
        let mut buffer = Buffer::with_size(&mut gpu, "b", capacity, uniform_usage());
        let data: Vec<u8> = (0..n).map(|i| (i as u8).wrapping_mul(7).wrapping_add(1)).collect();
        let write = buffer.try_write(&data, 0).unwrap();
        assert_eq!(write, BufferWrite { buffer: 0, offset: 0, len: n as u64 });
        assert_eq!(&buffer.read_back()[..n], &data[..]);
        assert!(buffer.read_back()[n..].iter().all(|b| *b == 0));
        assert_eq!(buffer.size(), capacity);
    }
}

#[test]
fn write_of_one_byte_too_many_fails() {
    let mut gpu = GpuContext::new(true);
    let mut buffer = Buffer::with_size(&mut gpu, "b", 16, uniform_usage());
    let data = vec![9u8; 17];
    assert_eq!(
        buffer.try_write(&data, 0),
        Err(BufferOverflow { len: 17, offset: 0, capacity: 16 })
    );
    assert_eq!(buffer.read_back(), &vec![0u8; 16]);
}

#[test]
fn write_past_the_end_fails_at_any_offset() {
    let mut gpu = GpuContext::new(true);
    let mut buffer = Buffer::with_size(&mut gpu, "b", 16, uniform_usage());
    assert_eq!(
        buffer.try_write(&[1, 2], 15),
        Err(BufferOverflow { len: 2, offset: 15, capacity: 16 })
    );
    assert_eq!(
        buffer.try_write(&[], 17),
        Err(BufferOverflow { len: 0, offset: 17, capacity: 16 })
    );
    assert_eq!(
        buffer.try_write(&[1], usize::MAX),
        Err(BufferOverflow { len: 1, offset: usize::MAX, capacity: 16 })
    );
    assert!(buffer.try_write(&[1, 2], 14).is_ok());
    assert!(buffer.try_write(&[], 16).is_ok());
}

#[test]
fn write_at_an_offset_leaves_the_rest() {
    let mut gpu = GpuContext::new(true);
    let mut buffer = Buffer::with_data(&mut gpu, "b", &[1, 2, 3, 4, 5, 6], uniform_usage());
    let write = buffer.write(&[9, 8], 2);
    assert_eq!(write, BufferWrite { buffer: 0, offset: 2, len: 2 });
    assert_eq!(buffer.read_back(), &vec![1, 2, 9, 8, 5, 6]);
}

#[test]
fn bound_size_of_nothing_is_the_rest() {
    assert_eq!(bound_size(None), None);
    assert_eq!(bound_size(Some(0)), None);
    assert_eq!(bound_size(Some(16)), Some(16));
}

#[test]
fn bind_uniform_and_storage() {
    let mut gpu = GpuContext::new(true);
    let _ = gpu.allocate();
    let buffer = Buffer::with_size(&mut gpu, "b", 64, uniform_usage());
    let uniform = buffer.bind_uniform(16, Some(32), true);
    assert_eq!(
        uniform.binding_type,
        BindingType::Buffer {
            ty: BufferBindingType::Uniform,
            has_dynamic_offset: true,
            min_binding_size: None,
        }
    );
    assert_eq!(uniform.count, None);
    assert_eq!(uniform.resource, BindingResource::Buffer { buffer: 1, offset: 16, size: Some(32) });
    let storage = buffer.bind_storage(true, 0, Some(0), false);
    assert_eq!(
        storage.binding_type,
        BindingType::Buffer {
            ty: BufferBindingType::Storage { read_only: true },
            has_dynamic_offset: false,
            min_binding_size: None,
        }
    );
    assert_eq!(storage.resource, BindingResource::Buffer { buffer: 1, offset: 0, size: None });
    assert_eq!(
        buffer.as_entire_binding(),
        BindingResource::Buffer { buffer: 1, offset: 0, size: None }
    );
}

#[test]
fn empty_array_holds_one_placeholder() {
    let mut gpu = GpuContext::new(true);
    let array = BufferVec::empty(&mut gpu, "spheres", &[0xff; 32]);
    assert_eq!(array.inner().size(), 32);
    assert_eq!(array.inner().read_back(), &vec![0xffu8; 32]);
    assert_eq!(array.inner().label(), "spheres");
    assert_eq!(array.inner().usage(), BufferVec::buffer_usages());
    assert!(BufferVec::buffer_usages().storage);
    assert!(BufferVec::buffer_usages().copy_dst);
    assert!(!BufferVec::buffer_usages().uniform);
}

#[test]
fn array_with_data_holds_the_data() {
    let mut gpu = GpuContext::new(true);
    let array = BufferVec::with_data(&mut gpu, "spheres", &[1, 2, 3, 4], &[0xff; 2]);
    assert_eq!(array.inner().read_back(), &vec![1, 2, 3, 4]);
    let padded = BufferVec::with_data(&mut gpu, "spheres", &[], &[0xff; 2]);
    assert_eq!(padded.inner().read_back(), &vec![0xff, 0xff]);
}

#[test]
fn copy_from_writes_in_place_where_it_fits() {
    let mut gpu = GpuContext::new(true);
    let mut array = BufferVec::with_data(&mut gpu, "a", &[1, 2, 3, 4], &[0xff; 2]);
    let id = array.inner().id();
    assert_eq!(
        array.copy_from(&mut gpu, &[7, 8], &[0xff; 2]),
        Some(BufferWrite { buffer: id, offset: 0, len: 2 })
    );
    assert_eq!(array.inner().id(), id);
    assert_eq!(array.inner().read_back(), &vec![7, 8, 3, 4]);
    assert_eq!(gpu.remaining(), u64::MAX - 1);
}

#[test]
fn copy_from_replaces_the_buffer_where_it_does_not_fit() {
    let mut gpu = GpuContext::new(true);
    let mut array = BufferVec::with_data(&mut gpu, "a", &[1, 2], &[0xff; 2]);
    assert_eq!(array.copy_from(&mut gpu, &[1, 2, 3], &[0xff; 2]), None);
    assert_eq!(array.inner().id(), 1);
    assert_eq!(array.inner().size(), 3);
    assert_eq!(array.inner().read_back(), &vec![1, 2, 3]);
    assert_eq!(array.inner().label(), "a");
}

#[test]
fn copy_from_nothing_writes_the_placeholder() {
    let mut gpu = GpuContext::new(true);
    let mut array = BufferVec::with_data(&mut gpu, "a", &[1, 2, 3, 4], &[0xff; 2]);
    assert_eq!(
        array.copy_from(&mut gpu, &[], &[0xff; 2]),
        Some(BufferWrite { buffer: array.inner().id(), offset: 0, len: 2 })
    );
    assert_eq!(array.inner().read_back(), &vec![0xff, 0xff, 3, 4]);
}

#[test]
fn array_binds_the_whole_buffer_as_storage() {
    let mut gpu = GpuContext::new(true);
    let array = BufferVec::empty(&mut gpu, "a", &[0; 4]);
    let entry = array.bind(true);
    assert_eq!(
        entry.binding_type,
        BindingType::Buffer {
            ty: BufferBindingType::Storage { read_only: true },
            has_dynamic_offset: false,
            min_binding_size: None,
        }
    );
    assert_eq!(entry.resource, BindingResource::Buffer { buffer: 0, offset: 0, size: None });
}

#[test]
fn assign_writes_over_a_buffer_of_the_same_size() {
    let mut gpu = GpuContext::new(true);
    let mut array = BufferVec::with_data(&mut gpu, "a", &[1, 2, 3, 4], &[0xff; 2]);
    let id = array.inner().id();
    assert_eq!(
        array.assign(&mut gpu, &[5, 6, 7, 8], &[0xff; 2]),
        Some(BufferWrite { buffer: id, offset: 0, len: 4 })
    );
    assert_eq!(array.inner().id(), id);
    assert_eq!(array.inner().read_back(), &vec![5, 6, 7, 8]);
    assert_eq!(gpu.remaining(), u64::MAX - 1);
}

#[test]
fn assign_replaces_a_buffer_of_another_size() {
    let mut gpu = GpuContext::new(true);
    let mut array = BufferVec::with_data(&mut gpu, "a", &[1, 2, 3, 4], &[0xff; 2]);
    // shorter: nothing of what the buffer held stays behind
    assert_eq!(array.assign(&mut gpu, &[7, 8], &[0xff; 2]), None);
    assert_eq!(array.inner().id(), 1);
    assert_eq!(array.inner().read_back(), &vec![7, 8]);
    assert_eq!(array.inner().label(), "a");
    // longer
    assert_eq!(array.assign(&mut gpu, &[1, 2, 3], &[0xff; 2]), None);
    assert_eq!(array.inner().id(), 2);
    assert_eq!(array.inner().read_back(), &vec![1, 2, 3]);
    // empty: the one placeholder element
    assert_eq!(array.assign(&mut gpu, &[], &[0xff; 2]), None);
    assert_eq!(array.inner().id(), 3);
    assert_eq!(array.inner().read_back(), &vec![0xff, 0xff]);
    assert_eq!(
        array.assign(&mut gpu, &[], &[0xee; 2]),
        Some(BufferWrite { buffer: 3, offset: 0, len: 2 })
    );
    assert_eq!(array.inner().read_back(), &vec![0xee, 0xee]);
}
