//! Binding sets: an ordered list of resources and the layout derived from it.

use vstd::prelude::*;
use super::GpuContext;
use super::texture::{TextureFormat, TextureSampleType, TextureView, TextureViewDimension};

verus! {

/// How a buffer is bound.
#[derive(Debug, Clone, Copy, PartialEq, Eq, Structural)]
pub enum BufferBindingType {
    Uniform,
    Storage { read_only: bool },
}

/// How a sampler is bound.
#[derive(Debug, Clone, Copy, PartialEq, Eq, Structural)]
pub enum SamplerBindingType {
    Filtering,
    NonFiltering,
    Comparison,
}

/// How a shader accesses a storage texture.
#[derive(Debug, Clone, Copy, PartialEq, Eq, Structural)]
pub enum StorageTextureAccess {
    WriteOnly,
    ReadOnly,
    ReadWrite,
}

/// The type of one binding, as a layout records it.
#[derive(Debug, Clone, Copy, PartialEq, Eq, Structural)]
pub enum BindingType {
    Buffer { ty: BufferBindingType, has_dynamic_offset: bool, min_binding_size: Option<u64> },
    Sampler(SamplerBindingType),
    Texture { sample_type: TextureSampleType, view_dimension: TextureViewDimension, multisampled: bool },
    StorageTexture { access: StorageTextureAccess, format: TextureFormat, view_dimension: TextureViewDimension },
}

/// The resource that one binding refers to.
#[derive(Debug, Clone, Copy, PartialEq, Eq, Structural)]
pub enum BindingResource {
    /// `size` bytes of a buffer from `offset` on; the rest of it where `size` is `None`.
    Buffer { buffer: u64, offset: u64, size: Option<u64> },
    TextureView(TextureView),
    Sampler(u64),
}

/// One resource together with the type it is bound as.
#[derive(Debug, Clone, Copy, PartialEq, Eq, Structural)]
pub struct BindingEntry {
    pub binding_type: BindingType,
    pub count: Option<usize>,
    pub resource: BindingResource,
}

/// One slot of a layout. Every slot is visible to all shader stages.
#[derive(Debug, Clone, Copy, PartialEq, Eq, Structural)]
pub struct BindGroupLayoutEntry {
    pub binding: u32,
    pub ty: BindingType,
    pub count: Option<u32>,
}

/// One slot of a bind group.
#[derive(Debug, Clone, Copy, PartialEq, Eq, Structural)]
pub struct BindGroupEntry {
    pub binding: u32,
    pub resource: BindingResource,
}

/// The array size that a layout records for `count`: none for a single
/// resource, and none for an array cut down to no element.
pub open spec fn spec_layout_count(count: Option<usize>) -> Option<u32> {
    match count {
        Some(c) if c as u32 != 0 => Some(c as u32),
        _ => None,
    }
}

impl BindingEntry {
    /// The layout slot of this entry at position `index`.
    pub open spec fn spec_layout_entry(&self, index: usize) -> BindGroupLayoutEntry {
        BindGroupLayoutEntry {
            binding: index as u32,
            ty: self.binding_type,
            count: spec_layout_count(self.count),
        }
    }

    /// The bind group slot of this entry at position `index`.
    pub open spec fn spec_group_entry(&self, index: usize) -> BindGroupEntry {
        BindGroupEntry { binding: index as u32, resource: self.resource }
    }

    /// The layout slot and the bind group slot of this entry at position `index`.
    pub fn build(&self, index: usize) -> (built: (BindGroupLayoutEntry, BindGroupEntry))
        ensures
            built.0 == self.spec_layout_entry(index),
            built.1 == self.spec_group_entry(index),
    {
        let binding: u32 = #[verifier::truncate] (index as u32);
        let count: Option<u32> = match self.count {
            Some(c) => {
                let c32: u32 = #[verifier::truncate] (c as u32);
                if c32 != 0 {
                    Some(c32)
                } else {
                    None
                }
            },
            None => None,
        };
        (
            BindGroupLayoutEntry { binding, ty: self.binding_type, count },
            BindGroupEntry { binding, resource: self.resource },
        )
    }
}

/// The layout that `entries` derive, slot by slot in their order.
pub open spec fn spec_layout_of(entries: Seq<BindingEntry>) -> Seq<BindGroupLayoutEntry> {
    Seq::new(entries.len(), |i: int| entries[i].spec_layout_entry(i as usize))
}

/// The bind group slots that `entries` derive, in their order.
pub open spec fn spec_group_of(entries: Seq<BindingEntry>) -> Seq<BindGroupEntry> {
    Seq::new(entries.len(), |i: int| entries[i].spec_group_entry(i as usize))
}

/// The bind group slots that bind `resources` in their order.
pub open spec fn spec_sequential(resources: Seq<BindingResource>) -> Seq<BindGroupEntry> {
    Seq::new(
        resources.len(),
        |i: int| BindGroupEntry { binding: i as usize as u32, resource: resources[i] },
    )
}

/// A layout on the device.
#[derive(Debug)]
pub struct BindGroupLayout {
    pub id: u64,
    pub entries: Vec<BindGroupLayoutEntry>,
}

/// A bind group on the device, made against the layout `layout`.
#[derive(Debug)]
pub struct BindGroup {
    pub id: u64,
    pub layout: u64,
    pub entries: Vec<BindGroupEntry>,
}

/// A layout and a bind group made from one list of entries.
pub fn create_linked(
    gpu: &mut GpuContext,
    layout_entries: Vec<BindGroupLayoutEntry>,
    entries: Vec<BindGroupEntry>,
) -> (linked: (BindGroupLayout, BindGroup))
    requires
        old(gpu).has_room(2),
    ensures
        final(gpu).next_id() == old(gpu).next_id() + 2,
        final(gpu).spec_float32_filterable() == old(gpu).spec_float32_filterable(),
        linked.0.id == old(gpu).next_id(),
        linked.0.entries == layout_entries,
        linked.1.id == old(gpu).next_id() + 1,
        linked.1.layout == linked.0.id,
        linked.1.entries == entries,
{
    let layout = BindGroupLayout { id: gpu.allocate(), entries: layout_entries };
    let bind_group = BindGroup { id: gpu.allocate(), layout: layout.id, entries };
    (layout, bind_group)
}

/// A binding set: a bind group and the layout it was made against.
///
/// The layout is derived once, from the order and types of the entries; the
/// bound resources can be exchanged afterwards without touching it.
#[derive(Debug)]
pub struct Binding {
    bind_group: BindGroup,
    bind_group_layout: BindGroupLayout,
}

impl Binding {
    pub closed spec fn spec_bind_group(&self) -> BindGroup {
        self.bind_group
    }

    pub closed spec fn spec_bind_group_layout(&self) -> BindGroupLayout {
        self.bind_group_layout
    }

    /// The bind group is made against the set's own layout and fills it slot by slot.
    pub open spec fn wf(&self) -> bool {
        &&& self.spec_bind_group().layout == self.spec_bind_group_layout().id
        &&& self.spec_bind_group().entries@.len() == self.spec_bind_group_layout().entries@.len()
    }

    /// A binding set of `entries`, bound at the positions they stand at.
    pub fn new(gpu: &mut GpuContext, entries: &[BindingEntry]) -> (binding: Self)
        requires
            old(gpu).has_room(2),
        ensures
            binding.wf(),
            final(gpu).next_id() == old(gpu).next_id() + 2,
            final(gpu).spec_float32_filterable() == old(gpu).spec_float32_filterable(),
            binding.spec_bind_group_layout().id == old(gpu).next_id(),
            binding.spec_bind_group_layout().entries@ == spec_layout_of(entries@),
            binding.spec_bind_group().id == old(gpu).next_id() + 1,
            binding.spec_bind_group().entries@ == spec_group_of(entries@),
    {
        let mut layout_entries: Vec<BindGroupLayoutEntry> = Vec::new();
        let mut group_entries: Vec<BindGroupEntry> = Vec::new();
        let mut i: usize = 0;
        while i < entries.len()
            invariant
                i <= entries.len(),
                layout_entries@ == spec_layout_of(entries@).take(i as int),
                group_entries@ == spec_group_of(entries@).take(i as int),
            decreases entries.len() - i,
        {
            let (layout_entry, group_entry) = entries[i].build(i);
            layout_entries.push(layout_entry);
            group_entries.push(group_entry);
            i = i + 1;
            assert(layout_entries@ =~= spec_layout_of(entries@).take(i as int));
            assert(group_entries@ =~= spec_group_of(entries@).take(i as int));
        }
        assert(layout_entries@ =~= spec_layout_of(entries@));
        assert(group_entries@ =~= spec_group_of(entries@));
        let (bind_group_layout, bind_group) = create_linked(gpu, layout_entries, group_entries);
        Binding { bind_group, bind_group_layout }
    }

    /// Binds `resources` in their order against the unchanged layout: the
    /// bind group is a new one, the layout is the one it was.
    pub fn rebind(&mut self, gpu: &mut GpuContext, resources: &[BindingResource])
        requires
            old(self).wf(),
            old(gpu).has_room(1),
            resources@.len() == old(self).spec_bind_group_layout().entries@.len(),
        ensures
            final(self).wf(),
            final(gpu).next_id() == old(gpu).next_id() + 1,
            final(gpu).spec_float32_filterable() == old(gpu).spec_float32_filterable(),
            final(self).spec_bind_group_layout() == old(self).spec_bind_group_layout(),
            final(self).spec_bind_group().id == old(gpu).next_id(),
            final(self).spec_bind_group().entries@ == spec_sequential(resources@),
    {
        let mut group_entries: Vec<BindGroupEntry> = Vec::new();
        let mut i: usize = 0;
        while i < resources.len()
            invariant
                i <= resources.len(),
                group_entries@ == spec_sequential(resources@).take(i as int),
            decreases resources.len() - i,
        {
            group_entries.push(
                BindGroupEntry {
                    binding: #[verifier::truncate] (i as u32),
                    resource: resources[i],
                },
            );
            i = i + 1;
            assert(group_entries@ =~= spec_sequential(resources@).take(i as int));
        }
        assert(group_entries@ =~= spec_sequential(resources@));
        self.bind_group =
        BindGroup { id: gpu.allocate(), layout: self.bind_group_layout.id, entries: group_entries };
    }

    /// Binds `resources` like [`Binding::rebind`] where they fit the layout:
    /// as many as it has slots, each of the kind its slot is typed for.
    /// Otherwise nothing changes.
    pub fn try_rebind(&mut self, gpu: &mut GpuContext, resources: &[BindingResource]) -> (result:
        Result<(), BindingError>)
        requires
            old(self).wf(),
            old(gpu).has_room(1),
        ensures
            final(self).wf(),
            final(gpu).spec_float32_filterable() == old(gpu).spec_float32_filterable(),
            final(self).spec_bind_group_layout() == old(self).spec_bind_group_layout(),
            result == spec_fits_layout(old(self).spec_bind_group_layout().entries@, resources@),
            result is Ok ==> {
                &&& final(gpu).next_id() == old(gpu).next_id() + 1
                &&& final(self).spec_bind_group().id == old(gpu).next_id()
                &&& final(self).spec_bind_group().entries@ == spec_sequential(resources@)
            },
            result is Err
                ==> *final(self) == *old(self) && final(gpu).next_id() == old(gpu).next_id(),
    {
        if resources.len() != self.bind_group_layout.entries.len() {
            return Err(BindingError::Count);
        }
        let mut i: usize = 0;
        while i < resources.len()
            invariant
                i <= resources@.len(),
                resources@.len() == self.bind_group_layout.entries@.len(),
                *self == *old(self),
                self.wf(),
                forall|k: int|
                    0 <= k < i ==> spec_kind_fits(
                        (#[trigger] self.bind_group_layout.entries@[k]).ty,
                        resources@[k],
                    ),
            decreases resources.len() - i,
        {
            if !kind_fits(self.bind_group_layout.entries[i].ty, resources[i]) {
                proof {
                    lemma_first_misfit(self.bind_group_layout.entries@, resources@, i as int);
                }
                return Err(BindingError::Kind { index: i });
            }
            i = i + 1;
        }
        proof {
            lemma_first_misfit(
                self.bind_group_layout.entries@,
                resources@,
                resources@.len() as int,
            );
        }
        self.rebind(gpu, resources);
        Ok(())
    }

    /// The bind group of the set.
    pub fn bind_group(&self) -> (group: &BindGroup)
        ensures
            *group == self.spec_bind_group(),
    {
        &self.bind_group
    }

    /// The layout of the set.
    pub fn bind_group_layout(&self) -> (layout: &BindGroupLayout)
        ensures
            *layout == self.spec_bind_group_layout(),
    {
        &self.bind_group_layout
    }
}

/// Why resources cannot be bound against a layout.
#[derive(Debug, Clone, Copy, PartialEq, Eq, Structural)]
pub enum BindingError {
    /// There are not as many resources as slots.
    Count,
    /// The resource at `index` is not of the kind its slot is typed for.
    Kind { index: usize },
}

/// Whether `resource` is of the kind that a slot of type `ty` takes: a
/// buffer for a buffer, a sampler for a sampler, a view for a texture.
pub open spec fn spec_kind_fits(ty: BindingType, resource: BindingResource) -> bool {
    match (ty, resource) {
        (BindingType::Buffer { .. }, BindingResource::Buffer { .. }) => true,
        (BindingType::Sampler(_), BindingResource::Sampler(_)) => true,
        (BindingType::Texture { .. }, BindingResource::TextureView(_)) => true,
        (BindingType::StorageTexture { .. }, BindingResource::TextureView(_)) => true,
        _ => false,
    }
}

/// Whether `resource` is of the kind that a slot of type `ty` takes.
pub fn kind_fits(ty: BindingType, resource: BindingResource) -> (fits: bool)
    ensures
        fits == spec_kind_fits(ty, resource),
{
    match ty {
        BindingType::Buffer { .. } => match resource {
            BindingResource::Buffer { .. } => true,
            _ => false,
        },
        BindingType::Sampler(_) => match resource {
            BindingResource::Sampler(_) => true,
            _ => false,
        },
        BindingType::Texture { .. } => match resource {
            BindingResource::TextureView(_) => true,
            _ => false,
        },
        BindingType::StorageTexture { .. } => match resource {
            BindingResource::TextureView(_) => true,
            _ => false,
        },
    }
}

/// Index of the first resource from `from` on that does not fit its slot,
/// or the number of slots where all fit.
pub open spec fn spec_first_misfit(
    layout: Seq<BindGroupLayoutEntry>,
    resources: Seq<BindingResource>,
    from: int,
) -> int
    decreases layout.len() - from,
{
    if from < 0 || from >= layout.len() || from >= resources.len() {
        layout.len() as int
    } else if !spec_kind_fits(layout[from].ty, resources[from]) {
        from
    } else {
        spec_first_misfit(layout, resources, from + 1)
    }
}

/// Whether `resources` can be bound against `layout`, and why not.
pub open spec fn spec_fits_layout(
    layout: Seq<BindGroupLayoutEntry>,
    resources: Seq<BindingResource>,
) -> Result<(), BindingError> {
    if resources.len() != layout.len() {
        Err(BindingError::Count)
    } else if spec_first_misfit(layout, resources, 0) < layout.len() {
        Err(BindingError::Kind { index: spec_first_misfit(layout, resources, 0) as usize })
    } else {
        Ok(())
    }
}

/// Where every resource before `upto` fits its slot, the first misfit is
/// the first from `upto` on.
pub proof fn lemma_first_misfit(
    layout: Seq<BindGroupLayoutEntry>,
    resources: Seq<BindingResource>,
    upto: int,
)
    requires
        layout.len() == resources.len(),
        0 <= upto <= layout.len(),
        forall|k: int| 0 <= k < upto ==> spec_kind_fits((#[trigger] layout[k]).ty, resources[k]),
    ensures
        spec_first_misfit(layout, resources, 0) == spec_first_misfit(layout, resources, upto),
        upto < layout.len() && !spec_kind_fits(layout[upto].ty, resources[upto])
            ==> spec_first_misfit(layout, resources, 0) == upto,
        upto == layout.len() ==> spec_first_misfit(layout, resources, 0) == layout.len(),
    decreases upto,
{
    if upto > 0 {
        lemma_first_misfit(layout, resources, upto - 1);
        assert(spec_kind_fits(layout[upto - 1].ty, resources[upto - 1]));
    }
    if upto == layout.len() {
        assert(spec_first_misfit(layout, resources, upto) == layout.len());
    }
}

/// Whether two lists of entries have the same shape: as many entries, and at
/// each position the same type and array size, whatever is bound there.
pub open spec fn same_shape(a: Seq<BindingEntry>, b: Seq<BindingEntry>) -> bool {
    &&& a.len() == b.len()
    &&& forall|i: int|
        0 <= i < a.len() ==> (#[trigger] a[i]).binding_type == b[i].binding_type && a[i].count
            == b[i].count
}

/// Two lists of entries of the same shape derive the same layout, so a bind
/// group made from one fits a pipeline made for the other.
pub proof fn lemma_same_shape_same_layout(a: Seq<BindingEntry>, b: Seq<BindingEntry>)
    requires
        same_shape(a, b),
    ensures
        spec_layout_of(a) == spec_layout_of(b),
{
    assert(spec_layout_of(a) =~= spec_layout_of(b));
}

/// The bind group slots of a list of entries are those that bind its
/// resources in order: rebinding the same resources changes no slot.
pub proof fn lemma_group_of_is_sequential(entries: Seq<BindingEntry>)
    ensures
        spec_group_of(entries) == spec_sequential(entries.map_values(|e: BindingEntry| e.resource)),
{
    assert(spec_group_of(entries) =~= spec_sequential(
        entries.map_values(|e: BindingEntry| e.resource),
    ));
}


/// A sampled texture view.
pub open spec fn spec_bind_texture(
    view: TextureView,
    sample_type: TextureSampleType,
    view_dimension: TextureViewDimension,
) -> BindingEntry {
    BindingEntry {
        binding_type: BindingType::Texture { sample_type, view_dimension, multisampled: false },
        count: None,
        resource: BindingResource::TextureView(view),
    }
}

/// A storage texture view.
pub open spec fn spec_bind_storage_texture(
    view: TextureView,
    format: TextureFormat,
    view_dimension: TextureViewDimension,
    access: StorageTextureAccess,
) -> BindingEntry {
    BindingEntry {
        binding_type: BindingType::StorageTexture { access, format, view_dimension },
        count: None,
        resource: BindingResource::TextureView(view),
    }
}

/// A sampler.
pub open spec fn spec_bind_sampler(sampler: u64, ty: SamplerBindingType) -> BindingEntry {
    BindingEntry {
        binding_type: BindingType::Sampler(ty),
        count: None,
        resource: BindingResource::Sampler(sampler),
    }
}

/// A whole buffer, bound as `ty`.
pub open spec fn spec_bind_buffer(buffer: u64, ty: BufferBindingType) -> BindingEntry {
    BindingEntry {
        binding_type: BindingType::Buffer { ty, has_dynamic_offset: false, min_binding_size: None },
        count: None,
        resource: BindingResource::Buffer { buffer, offset: 0, size: None },
    }
}

/// Binds `view` as a sampled texture.
pub fn bind_texture(
    view: TextureView,
    sample_type: TextureSampleType,
    view_dimension: TextureViewDimension,
) -> (entry: BindingEntry)
    ensures
        entry == spec_bind_texture(view, sample_type, view_dimension),
{
    BindingEntry {
        binding_type: BindingType::Texture { sample_type, view_dimension, multisampled: false },
        count: None,
        resource: BindingResource::TextureView(view),
    }
}

/// Binds `view` as a storage texture.
pub fn bind_storage_texture(
    view: TextureView,
    format: TextureFormat,
    view_dimension: TextureViewDimension,
    access: StorageTextureAccess,
) -> (entry: BindingEntry)
    ensures
        entry == spec_bind_storage_texture(view, format, view_dimension, access),
{
    BindingEntry {
        binding_type: BindingType::StorageTexture { access, format, view_dimension },
        count: None,
        resource: BindingResource::TextureView(view),
    }
}

/// Binds a sampler.
pub fn bind_sampler(sampler: u64, ty: SamplerBindingType) -> (entry: BindingEntry)
    ensures
        entry == spec_bind_sampler(sampler, ty),
{
    BindingEntry {
        binding_type: BindingType::Sampler(ty),
        count: None,
        resource: BindingResource::Sampler(sampler),
    }
}

/// Binds a whole buffer as a uniform buffer.
pub fn bind_buffer_uniform(buffer: u64) -> (entry: BindingEntry)
    ensures
        entry == spec_bind_buffer(buffer, BufferBindingType::Uniform),
{
    BindingEntry {
        binding_type: BindingType::Buffer {
            ty: BufferBindingType::Uniform,
            has_dynamic_offset: false,
            min_binding_size: None,
        },
        count: None,
        resource: BindingResource::Buffer { buffer, offset: 0, size: None },
    }
}

/// Binds a whole buffer as a storage buffer.
pub fn bind_buffer_storage(buffer: u64, read_only: bool) -> (entry: BindingEntry)
    ensures
        entry == spec_bind_buffer(buffer, BufferBindingType::Storage { read_only }),
{
    BindingEntry {
        binding_type: BindingType::Buffer {
            ty: BufferBindingType::Storage { read_only },
            has_dynamic_offset: false,
            min_binding_size: None,
        },
        count: None,
        resource: BindingResource::Buffer { buffer, offset: 0, size: None },
    }
}

} // verus!
