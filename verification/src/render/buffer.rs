//! Buffers: a fixed capacity of bytes, written in place or replaced by a larger one.

use vstd::prelude::*;
use vstd::slice::slice_to_vec;
use super::GpuContext;
use super::binding::{BindingEntry, BindingResource, BindingType, BufferBindingType};

verus! {

/// What a buffer may be used for.
#[derive(Debug, Clone, Copy, PartialEq, Eq, Structural)]
pub struct BufferUsages {
    pub uniform: bool,
    pub storage: bool,
    pub copy_src: bool,
    pub copy_dst: bool,
    pub map_read: bool,
    pub query_resolve: bool,
}

/// The bytes of a buffer that a write replaced and that the device has to receive.
#[derive(Debug, Clone, Copy, PartialEq, Eq, Structural)]
pub struct BufferWrite {
    pub buffer: u64,
    pub offset: u64,
    pub len: u64,
}

/// A write that does not fit the buffer.
#[derive(Debug, Clone, Copy, PartialEq, Eq, Structural)]
pub struct BufferOverflow {
    pub len: usize,
    pub offset: usize,
    pub capacity: usize,
}

/// The bytes `store` holds after `data` was written at `offset`.
pub open spec fn spec_written(store: Seq<u8>, data: Seq<u8>, offset: int) -> Seq<u8> {
    Seq::new(
        store.len(),
        |i: int|
            if offset <= i < offset + data.len() {
                data[i - offset]
            } else {
                store[i]
            },
    )
}

/// The bound size that a binding records for `size`: the rest of the buffer
/// where none is given, and where a size of no byte is given.
pub open spec fn spec_bound_size(size: Option<usize>) -> Option<u64> {
    match size {
        Some(s) if s != 0 => Some(s as u64),
        _ => None,
    }
}

/// A buffer on the device together with the bytes it holds.
///
/// The capacity is fixed when the buffer is made. No write reaches past it.
#[derive(Debug)]
pub struct Buffer {
    id: u64,
    label: String,
    usage: BufferUsages,
    store: Vec<u8>,
}

impl Buffer {
    /// Identity of the device buffer.
    pub closed spec fn spec_id(&self) -> u64 {
        self.id
    }

    /// The name the buffer was made with.
    pub closed spec fn spec_label(&self) -> Seq<char> {
        self.label@
    }

    /// What the buffer may be used for.
    pub closed spec fn spec_usage(&self) -> BufferUsages {
        self.usage
    }

    /// The bytes the buffer holds; their number is its capacity.
    pub closed spec fn contents(&self) -> Seq<u8> {
        self.store@
    }

    /// The capacity in bytes.
    pub open spec fn spec_size(&self) -> nat {
        self.contents().len()
    }

    /// A buffer that holds `data` and has room for exactly that.
    pub fn with_data(gpu: &mut GpuContext, name: &str, data: &[u8], usage: BufferUsages) -> (buffer:
        Self)
        requires
            old(gpu).has_room(1),
        ensures
            buffer.spec_id() == old(gpu).next_id(),
            final(gpu).next_id() == old(gpu).next_id() + 1,
            final(gpu).spec_float32_filterable() == old(gpu).spec_float32_filterable(),
            buffer.spec_label() == name@,
            buffer.spec_usage() == usage,
            buffer.contents() == data@,
    {
        Buffer { id: gpu.allocate(), label: name.to_owned(), usage, store: slice_to_vec(data) }
    }

    /// A buffer of `size` zero bytes.
    pub fn with_size(gpu: &mut GpuContext, name: &str, size: usize, usage: BufferUsages) -> (buffer:
        Self)
        requires
            old(gpu).has_room(1),
        ensures
            buffer.spec_id() == old(gpu).next_id(),
            final(gpu).next_id() == old(gpu).next_id() + 1,
            final(gpu).spec_float32_filterable() == old(gpu).spec_float32_filterable(),
            buffer.spec_label() == name@,
            buffer.spec_usage() == usage,
            buffer.contents() == Seq::new(size as nat, |i: int| 0u8),
    {
        let mut store: Vec<u8> = Vec::new();
        let mut i: usize = 0;
        while i < size
            invariant
                i <= size,
                store@ == Seq::new(i as nat, |k: int| 0u8),
            decreases size - i,
        {
            store.push(0u8);
            i = i + 1;
            assert(store@ =~= Seq::new(i as nat, |k: int| 0u8));
        }
        Buffer { id: gpu.allocate(), label: name.to_owned(), usage, store }
    }

    /// Identity of the device buffer.
    #[verifier::when_used_as_spec(spec_id)]
    pub fn id(&self) -> (id: u64)
        ensures
            id == self.spec_id(),
    {
        self.id
    }

    /// The capacity in bytes.
    pub fn size(&self) -> (size: usize)
        ensures
            size == self.spec_size(),
    {
        self.store.len()
    }

    /// What the buffer may be used for.
    pub fn usage(&self) -> (usage: BufferUsages)
        ensures
            usage == self.spec_usage(),
    {
        self.usage
    }

    /// The name the buffer was made with.
    pub fn label(&self) -> (label: &String)
        ensures
            label@ == self.spec_label(),
    {
        &self.label
    }

    /// The bytes the buffer holds.
    pub fn read_back(&self) -> (bytes: &Vec<u8>)
        ensures
            bytes@ == self.contents(),
    {
        &self.store
    }

    /// Writes `data` at `offset`. The write has to fit the capacity.
    pub fn write(&mut self, data: &[u8], offset: usize) -> (write: BufferWrite)
        requires
            offset + data@.len() <= old(self).spec_size(),
        ensures
            final(self).contents() == spec_written(old(self).contents(), data@, offset as int),
            final(self).spec_id() == old(self).spec_id(),
            final(self).spec_label() == old(self).spec_label(),
            final(self).spec_usage() == old(self).spec_usage(),
            write == (BufferWrite {
                buffer: old(self).spec_id(),
                offset: offset as u64,
                len: data@.len() as u64,
            }),
    {
        let ghost before = self.store@;
        let capacity: usize = self.store.len();
        let mut i: usize = 0;
        while i < data.len()
            invariant
                i <= data.len(),
                offset + data@.len() <= before.len(),
                self.store@.len() == before.len(),
                before.len() == capacity,
                self.id == old(self).id,
                self.label == old(self).label,
                self.usage == old(self).usage,
                self.store@ == spec_written(before, data@.take(i as int), offset as int),
            decreases data.len() - i,
        {
            self.store.set(offset + i, data[i]);
            i = i + 1;
            assert(self.store@ =~= spec_written(before, data@.take(i as int), offset as int));
        }
        assert(data@.take(data@.len() as int) =~= data@);
        BufferWrite { buffer: self.id, offset: offset as u64, len: data.len() as u64 }
    }

    /// Writes `data` at `offset` where it fits, and refuses the write where
    /// it would reach past the capacity.
    pub fn try_write(&mut self, data: &[u8], offset: usize) -> (result: Result<
        BufferWrite,
        BufferOverflow,
    >)
        ensures
            final(self).spec_id() == old(self).spec_id(),
            final(self).spec_label() == old(self).spec_label(),
            final(self).spec_usage() == old(self).spec_usage(),
            offset + data@.len() <= old(self).spec_size() ==> {
                &&& result == Ok::<BufferWrite, BufferOverflow>(
                    BufferWrite {
                        buffer: old(self).spec_id(),
                        offset: offset as u64,
                        len: data@.len() as u64,
                    },
                )
                &&& final(self).contents() == spec_written(
                    old(self).contents(),
                    data@,
                    offset as int,
                )
            },
            offset + data@.len() > old(self).spec_size() ==> {
                &&& result == Err::<BufferWrite, BufferOverflow>(
                    BufferOverflow {
                        len: data@.len() as usize,
                        offset,
                        capacity: old(self).spec_size() as usize,
                    },
                )
                &&& final(self).contents() == old(self).contents()
            },
    {
        let capacity: usize = self.store.len();
        if offset <= capacity && data.len() <= capacity - offset {
            Ok(self.write(data, offset))
        } else {
            Err(BufferOverflow { len: data.len(), offset, capacity })
        }
    }

    /// Binds `size` bytes from `offset` on as a uniform buffer.
    pub fn bind_uniform(&self, offset: usize, size: Option<usize>, has_dynamic_offset: bool) -> (entry:
        BindingEntry)
        ensures
            entry == (BindingEntry {
                binding_type: BindingType::Buffer {
                    ty: BufferBindingType::Uniform,
                    has_dynamic_offset,
                    min_binding_size: None,
                },
                count: None,
                resource: BindingResource::Buffer {
                    buffer: self.spec_id(),
                    offset: offset as u64,
                    size: spec_bound_size(size),
                },
            }),
    {
        BindingEntry {
            binding_type: BindingType::Buffer {
                ty: BufferBindingType::Uniform,
                has_dynamic_offset,
                min_binding_size: None,
            },
            count: None,
            resource: BindingResource::Buffer {
                buffer: self.id,
                offset: offset as u64,
                size: bound_size(size),
            },
        }
    }

    /// Binds `size` bytes from `offset` on as a storage buffer.
    pub fn bind_storage(
        &self,
        read_only: bool,
        offset: usize,
        size: Option<usize>,
        has_dynamic_offset: bool,
    ) -> (entry: BindingEntry)
        ensures
            entry == (BindingEntry {
                binding_type: BindingType::Buffer {
                    ty: BufferBindingType::Storage { read_only },
                    has_dynamic_offset,
                    min_binding_size: None,
                },
                count: None,
                resource: BindingResource::Buffer {
                    buffer: self.spec_id(),
                    offset: offset as u64,
                    size: spec_bound_size(size),
                },
            }),
    {
        BindingEntry {
            binding_type: BindingType::Buffer {
                ty: BufferBindingType::Storage { read_only },
                has_dynamic_offset,
                min_binding_size: None,
            },
            count: None,
            resource: BindingResource::Buffer {
                buffer: self.id,
                offset: offset as u64,
                size: bound_size(size),
            },
        }
    }

    /// The whole buffer as a bound resource.
    pub fn as_entire_binding(&self) -> (resource: BindingResource)
        ensures
            resource == (BindingResource::Buffer { buffer: self.spec_id(), offset: 0, size: None }),
    {
        BindingResource::Buffer { buffer: self.id, offset: 0, size: None }
    }
}

/// The bound size that a binding records for `size`.
pub fn bound_size(size: Option<usize>) -> (bound: Option<u64>)
    ensures
        bound == spec_bound_size(size),
{
    match size {
        Some(s) => if s != 0 {
            Some(s as u64)
        } else {
            None
        },
        None => None,
    }
}

/// Writing at offset 0 and reading back gives the written bytes: the first
/// bytes of the store are the data, and what lies behind them is untouched.
pub proof fn lemma_write_read_round_trip(store: Seq<u8>, data: Seq<u8>)
    requires
        data.len() <= store.len(),
    ensures
        spec_written(store, data, 0).len() == store.len(),
        spec_written(store, data, 0).take(data.len() as int) == data,
        spec_written(store, data, 0).skip(data.len() as int) == store.skip(data.len() as int),
{
    assert(spec_written(store, data, 0).take(data.len() as int) =~= data);
    assert(spec_written(store, data, 0).skip(data.len() as int) =~= store.skip(data.len() as int));
}

/// The bytes that a storage array is made of: the encoded elements, or one
/// placeholder element where there is none, so that no empty buffer is bound.
pub open spec fn spec_padded(data: Seq<u8>, placeholder: Seq<u8>) -> Seq<u8> {
    if data.len() == 0 {
        placeholder
    } else {
        data
    }
}

/// Whether a buffer of `size` bytes is replaced when its array is made to
/// hold exactly `data`, or the placeholder: unless they are as long as it.
pub open spec fn spec_replaces(size: nat, data: Seq<u8>, placeholder: Seq<u8>) -> bool {
    spec_padded(data, placeholder).len() != size
}

/// A storage buffer that holds an array of encoded elements and grows by
/// replacement when the array outgrows it.
#[derive(Debug)]
pub struct BufferVec {
    inner: Buffer,
    name: String,
}

impl BufferVec {
    /// The buffer that holds the array.
    pub closed spec fn spec_inner(&self) -> Buffer {
        self.inner
    }

    /// The name every buffer of this array is made with.
    pub closed spec fn spec_name(&self) -> Seq<char> {
        self.name@
    }

    /// The buffer is named as the array, and is a storage buffer that can be written.
    pub open spec fn wf(&self) -> bool {
        &&& self.spec_inner().spec_label() == self.spec_name()
        &&& self.spec_inner().spec_usage() == spec_buffer_usages()
        &&& self.spec_inner().spec_size() > 0
    }

    /// A storage array is bound unsized, so it is a storage buffer, and it is
    /// written by copies.
    pub fn buffer_usages() -> (usage: BufferUsages)
        ensures
            usage == spec_buffer_usages(),
    {
        BufferUsages {
            uniform: false,
            storage: true,
            copy_src: false,
            copy_dst: true,
            map_read: false,
            query_resolve: false,
        }
    }

    /// An array of no element: the buffer holds one placeholder element.
    pub fn empty(gpu: &mut GpuContext, name: &str, placeholder: &[u8]) -> (array: Self)
        requires
            old(gpu).has_room(1),
            placeholder@.len() > 0,
        ensures
            array.wf(),
            array.spec_name() == name@,
            array.spec_inner().spec_id() == old(gpu).next_id(),
            array.spec_inner().contents() == placeholder@,
            final(gpu).next_id() == old(gpu).next_id() + 1,
            final(gpu).spec_float32_filterable() == old(gpu).spec_float32_filterable(),
    {
        let inner = Buffer::with_data(gpu, name, placeholder, Self::buffer_usages());
        BufferVec { inner, name: name.to_owned() }
    }

    /// An array of the elements encoded in `data`.
    pub fn with_data(gpu: &mut GpuContext, name: &str, data: &[u8], placeholder: &[u8]) -> (array:
        Self)
        requires
            old(gpu).has_room(1),
            placeholder@.len() > 0,
        ensures
            array.wf(),
            array.spec_name() == name@,
            array.spec_inner().spec_id() == old(gpu).next_id(),
            array.spec_inner().contents() == spec_padded(data@, placeholder@),
            final(gpu).next_id() == old(gpu).next_id() + 1,
            final(gpu).spec_float32_filterable() == old(gpu).spec_float32_filterable(),
    {
        if data.len() == 0 {
            return Self::empty(gpu, name, placeholder);
        }
        let inner = Buffer::with_data(gpu, name, data, Self::buffer_usages());
        BufferVec { inner, name: name.to_owned() }
    }

    /// Replaces the array by the elements encoded in `data`. Where they fit
    /// the buffer they are written in place from its start, and the write
    /// for the device is returned; where they do not, a new buffer of
    /// exactly their size takes its place, and nothing is returned.
    pub fn copy_from(&mut self, gpu: &mut GpuContext, data: &[u8], placeholder: &[u8]) -> (write:
        Option<BufferWrite>)
        requires
            old(self).wf(),
            old(gpu).has_room(1),
            placeholder@.len() > 0,
        ensures
            final(self).wf(),
            final(self).spec_name() == old(self).spec_name(),
            final(gpu).spec_float32_filterable() == old(gpu).spec_float32_filterable(),
            write is None == (spec_padded(data@, placeholder@).len() > old(
                self,
            ).spec_inner().spec_size()),
            write is None ==> {
                &&& final(self).spec_inner().spec_id() == old(gpu).next_id()
                &&& final(gpu).next_id() == old(gpu).next_id() + 1
                &&& final(self).spec_inner().contents() == spec_padded(data@, placeholder@)
            },
            write matches Some(w) ==> {
                &&& w == (BufferWrite {
                    buffer: old(self).spec_inner().spec_id(),
                    offset: 0,
                    len: spec_padded(data@, placeholder@).len() as u64,
                })
                &&& final(self).spec_inner().spec_id() == old(self).spec_inner().spec_id()
                &&& final(gpu).next_id() == old(gpu).next_id()
                &&& final(self).spec_inner().contents() == spec_written(
                    old(self).spec_inner().contents(),
                    spec_padded(data@, placeholder@),
                    0,
                )
            },
    {
        let bytes: &[u8] = if data.len() == 0 {
            placeholder
        } else {
            data
        };
        if bytes.len() > self.inner.size() {
            self.inner = Buffer::with_data(gpu, self.name.as_str(), bytes, Self::buffer_usages());
            None
        } else {
            Some(self.inner.write(bytes, 0))
        }
    }

    /// Makes the array hold exactly the elements encoded in `data`, or the
    /// placeholder where there is none. Where they are as long as the buffer
    /// they are written over it, and the write for the device is returned;
    /// where they are longer or shorter, a new buffer of exactly their size
    /// takes its place, so that nothing of what the buffer held stays behind
    /// them.
    pub fn assign(&mut self, gpu: &mut GpuContext, data: &[u8], placeholder: &[u8]) -> (write:
        Option<BufferWrite>)
        requires
            old(self).wf(),
            old(gpu).has_room(1),
            placeholder@.len() > 0,
        ensures
            final(self).wf(),
            final(self).spec_name() == old(self).spec_name(),
            final(gpu).spec_float32_filterable() == old(gpu).spec_float32_filterable(),
            final(self).spec_inner().contents() == spec_padded(data@, placeholder@),
            write is None == spec_replaces(old(self).spec_inner().spec_size(), data@, placeholder@),
            match write {
                Some(w) => {
                    &&& w == (BufferWrite {
                        buffer: old(self).spec_inner().spec_id(),
                        offset: 0,
                        len: spec_padded(data@, placeholder@).len() as u64,
                    })
                    &&& final(self).spec_inner().spec_id() == old(self).spec_inner().spec_id()
                    &&& final(gpu).next_id() == old(gpu).next_id()
                },
                None => {
                    &&& final(self).spec_inner().spec_id() == old(gpu).next_id()
                    &&& final(gpu).next_id() == old(gpu).next_id() + 1
                },
            },
    {
        let bytes: &[u8] = if data.len() == 0 {
            placeholder
        } else {
            data
        };
        if bytes.len() == self.inner.size() {
            let write = self.inner.write(bytes, 0);
            assert(self.inner.contents() =~= bytes@);
            Some(write)
        } else {
            self.inner = Buffer::with_data(gpu, self.name.as_str(), bytes, Self::buffer_usages());
            None
        }
    }

    /// The buffer that holds the array.
    pub fn inner(&self) -> (buffer: &Buffer)
        ensures
            *buffer == self.spec_inner(),
    {
        &self.inner
    }

    /// Binds the whole array as a storage buffer.
    pub fn bind(&self, read_only: bool) -> (entry: BindingEntry)
        ensures
            entry == (BindingEntry {
                binding_type: BindingType::Buffer {
                    ty: BufferBindingType::Storage { read_only },
                    has_dynamic_offset: false,
                    min_binding_size: None,
                },
                count: None,
                resource: BindingResource::Buffer {
                    buffer: self.spec_inner().spec_id(),
                    offset: 0,
                    size: None,
                },
            }),
    {
        BindingEntry {
            binding_type: BindingType::Buffer {
                ty: BufferBindingType::Storage { read_only },
                has_dynamic_offset: false,
                min_binding_size: None,
            },
            count: None,
            resource: self.inner.as_entire_binding(),
        }
    }
}

/// The uses of the buffer of a storage array.
pub open spec fn spec_buffer_usages() -> BufferUsages {
    BufferUsages {
        uniform: false,
        storage: true,
        copy_src: false,
        copy_dst: true,
        map_read: false,
        query_resolve: false,
    }
}

} // verus!
