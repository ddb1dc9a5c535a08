//! The buffers of the scene: materials and geometry, bound read-only.

use vstd::prelude::*;
use crate::render::GpuContext;
use crate::render::binding::{
    bind_buffer_storage, spec_bind_buffer, spec_layout_of, spec_sequential, BindGroupLayoutEntry, Binding,
    BindingEntry,
    BindingResource, BufferBindingType,
};
use crate::render::buffer::{spec_padded, BufferVec, BufferWrite};

verus! {

/// The encoded elements of the four collections of the scene, or one encoded
/// placeholder element of each.
#[derive(Debug)]
pub struct ObjectBytes {
    pub materials: Vec<u8>,
    pub spheres: Vec<u8>,
    pub aabbs: Vec<u8>,
    pub triangles: Vec<u8>,
}

impl ObjectBytes {
    /// Whether each of the four holds at least one byte.
    pub open spec fn spec_nonempty(&self) -> bool {
        &&& self.materials@.len() > 0
        &&& self.spheres@.len() > 0
        &&& self.aabbs@.len() > 0
        &&& self.triangles@.len() > 0
    }
}

/// The entries of the binding set of the four buffers.
pub open spec fn spec_object_entries(materials: u64, spheres: u64, aabbs: u64, triangles: u64) -> Seq<
    BindingEntry,
> {
    seq![
        spec_bind_buffer(materials, BufferBindingType::Storage { read_only: true }),
        spec_bind_buffer(spheres, BufferBindingType::Storage { read_only: true }),
        spec_bind_buffer(aabbs, BufferBindingType::Storage { read_only: true }),
        spec_bind_buffer(triangles, BufferBindingType::Storage { read_only: true }),
    ]
}

/// The layout of the binding set of the four buffers. A layout records the
/// types of the slots, so it is the same whatever buffers are bound.
pub open spec fn spec_object_layout() -> Seq<BindGroupLayoutEntry> {
    spec_layout_of(spec_object_entries(0, 0, 0, 0))
}

/// The four buffers as a whole, in the order they are bound in.
pub open spec fn spec_object_resources(materials: u64, spheres: u64, aabbs: u64, triangles: u64) -> Seq<
    BindingResource,
> {
    seq![
        BindingResource::Buffer { buffer: materials, offset: 0, size: None },
        BindingResource::Buffer { buffer: spheres, offset: 0, size: None },
        BindingResource::Buffer { buffer: aabbs, offset: 0, size: None },
        BindingResource::Buffer { buffer: triangles, offset: 0, size: None },
    ]
}

/// One where `yes`, none where not.
pub open spec fn spec_count(yes: bool) -> int {
    if yes {
        1
    } else {
        0
    }
}

/// What an update of the scene did: whether the buffers were bound anew, and
/// for each buffer that was kept the write that the device has to receive.
#[derive(Debug, Clone, Copy, PartialEq, Eq, Structural)]
pub struct ObjectUpdate {
    pub rebound: bool,
    pub materials: Option<BufferWrite>,
    pub spheres: Option<BufferWrite>,
    pub aabbs: Option<BufferWrite>,
    pub triangles: Option<BufferWrite>,
}

/// Whether `after` is what `before` becomes when it is made to hold exactly
/// `bytes`: it holds them and nothing else, under the same name; it is the
/// same buffer, written over, where they are as long as it was, and the
/// buffer made with identity `fresh` where they are not.
pub open spec fn spec_assigned(
    before: BufferVec,
    after: BufferVec,
    bytes: Seq<u8>,
    write: Option<BufferWrite>,
    fresh: int,
) -> bool {
    &&& after.spec_name() == before.spec_name()
    &&& after.spec_inner().contents() == bytes
    &&& if bytes.len() != before.spec_inner().spec_size() {
        write is None && after.spec_inner().spec_id() == fresh
    } else {
        &&& after.spec_inner().spec_id() == before.spec_inner().spec_id()
        &&& write == Some(
            BufferWrite {
                buffer: before.spec_inner().spec_id(),
                offset: 0,
                len: bytes.len() as u64,
            },
        )
    }
}

/// The four storage buffers of the scene and their binding set.
#[derive(Debug)]
pub struct ObjectBinding {
    materials_buffer: BufferVec,
    spheres_buffer: BufferVec,
    aabbs_buffer: BufferVec,
    triangles_buffer: BufferVec,
    binding: Binding,
}

impl ObjectBinding {
    pub closed spec fn spec_materials(&self) -> BufferVec {
        self.materials_buffer
    }

    pub closed spec fn spec_spheres(&self) -> BufferVec {
        self.spheres_buffer
    }

    pub closed spec fn spec_aabbs(&self) -> BufferVec {
        self.aabbs_buffer
    }

    pub closed spec fn spec_triangles(&self) -> BufferVec {
        self.triangles_buffer
    }

    pub closed spec fn spec_binding(&self) -> Binding {
        self.binding
    }

    /// No buffer is empty, and the binding set binds the four buffers as
    /// they are now.
    pub open spec fn wf(&self) -> bool {
        &&& self.spec_materials().wf()
        &&& self.spec_spheres().wf()
        &&& self.spec_aabbs().wf()
        &&& self.spec_triangles().wf()
        &&& self.spec_binding().wf()
        &&& self.spec_binding().spec_bind_group_layout().entries@ == spec_object_layout()
        &&& self.spec_binding().spec_bind_group().entries@ == spec_sequential(
            spec_object_resources(
                self.spec_materials().spec_inner().spec_id(),
                self.spec_spheres().spec_inner().spec_id(),
                self.spec_aabbs().spec_inner().spec_id(),
                self.spec_triangles().spec_inner().spec_id(),
            ),
        )
    }

    /// The buffers of an empty scene: each holds its placeholder.
    pub fn init(gpu: &mut GpuContext, placeholders: &ObjectBytes) -> (objects: Self)
        requires
            placeholders.spec_nonempty(),
            old(gpu).has_room(6),
        ensures
            objects.wf(),
            objects.spec_materials().spec_inner().spec_id() == old(gpu).next_id(),
            objects.spec_materials().spec_inner().contents() == placeholders.materials@,
            objects.spec_materials().spec_name() == "materials_buffer"@,
            objects.spec_spheres().spec_inner().spec_id() == old(gpu).next_id() + 1,
            objects.spec_spheres().spec_inner().contents() == placeholders.spheres@,
            objects.spec_spheres().spec_name() == "spheres_buffer"@,
            objects.spec_aabbs().spec_inner().spec_id() == old(gpu).next_id() + 2,
            objects.spec_aabbs().spec_inner().contents() == placeholders.aabbs@,
            objects.spec_aabbs().spec_name() == "aabbs_buffer"@,
            objects.spec_triangles().spec_inner().spec_id() == old(gpu).next_id() + 3,
            objects.spec_triangles().spec_inner().contents() == placeholders.triangles@,
            objects.spec_triangles().spec_name() == "triangles_buffer"@,
            objects.spec_binding().spec_bind_group_layout().id == old(gpu).next_id() + 4,
            objects.spec_binding().spec_bind_group().id == old(gpu).next_id() + 5,
            final(gpu).next_id() == old(gpu).next_id() + 6,
            final(gpu).spec_float32_filterable() == old(gpu).spec_float32_filterable(),
    {
        let materials_buffer = BufferVec::empty(
            gpu,
            "materials_buffer",
            placeholders.materials.as_slice(),
        );
        let spheres_buffer = BufferVec::empty(gpu, "spheres_buffer", placeholders.spheres.as_slice());
        let aabbs_buffer = BufferVec::empty(gpu, "aabbs_buffer", placeholders.aabbs.as_slice());
        let triangles_buffer = BufferVec::empty(
            gpu,
            "triangles_buffer",
            placeholders.triangles.as_slice(),
        );
        let entries: [BindingEntry; 4] = [
            bind_buffer_storage(materials_buffer.inner().id(), true),
            bind_buffer_storage(spheres_buffer.inner().id(), true),
            bind_buffer_storage(aabbs_buffer.inner().id(), true),
            bind_buffer_storage(triangles_buffer.inner().id(), true),
        ];
        let binding = Binding::new(gpu, entries.as_slice());
        assert(binding.spec_bind_group_layout().entries@ =~= spec_object_layout());
        assert(binding.spec_bind_group().entries@ =~= spec_sequential(
            spec_object_resources(
                materials_buffer.spec_inner().spec_id(),
                spheres_buffer.spec_inner().spec_id(),
                aabbs_buffer.spec_inner().spec_id(),
                triangles_buffer.spec_inner().spec_id(),
            ),
        ));
        ObjectBinding { materials_buffer, spheres_buffer, aabbs_buffer, triangles_buffer, binding }
    }

    /// Takes the scene where it has changed. Each buffer then holds exactly
    /// the encoded elements of its collection, or the one placeholder
    /// element of an empty collection: written over the buffer where they
    /// are as long as it, in a new buffer where they are not. The buffers
    /// are bound anew, in their order and against the unchanged layout, if
    /// and only if one of them is new. Where the scene has not changed,
    /// nothing is touched.
    pub fn update(
        &mut self,
        gpu: &mut GpuContext,
        changed: bool,
        objects: &ObjectBytes,
        placeholders: &ObjectBytes,
    ) -> (update: ObjectUpdate)
        requires
            old(self).wf(),
            placeholders.spec_nonempty(),
            old(gpu).has_room(5),
        ensures
            final(self).wf(),
            final(gpu).spec_float32_filterable() == old(gpu).spec_float32_filterable(),
            final(self).spec_binding().spec_bind_group_layout()
                == old(self).spec_binding().spec_bind_group_layout(),
            !changed ==> {
                &&& *final(self) == *old(self)
                &&& final(gpu).next_id() == old(gpu).next_id()
                &&& update == (ObjectUpdate {
                    rebound: false,
                    materials: None,
                    spheres: None,
                    aabbs: None,
                    triangles: None,
                })
            },
            changed ==> {
                let materials = spec_padded(objects.materials@, placeholders.materials@);
                let spheres = spec_padded(objects.spheres@, placeholders.spheres@);
                let aabbs = spec_padded(objects.aabbs@, placeholders.aabbs@);
                let triangles = spec_padded(objects.triangles@, placeholders.triangles@);
                let new_materials = materials.len() != old(self).spec_materials().spec_inner().spec_size();
                let new_spheres = spheres.len() != old(self).spec_spheres().spec_inner().spec_size();
                let new_aabbs = aabbs.len() != old(self).spec_aabbs().spec_inner().spec_size();
                let new_triangles = triangles.len() != old(self).spec_triangles().spec_inner().spec_size();
                let made = spec_count(new_materials) + spec_count(new_spheres) + spec_count(
                    new_aabbs,
                ) + spec_count(new_triangles);
                &&& spec_assigned(
                    old(self).spec_materials(),
                    final(self).spec_materials(),
                    materials,
                    update.materials,
                    old(gpu).next_id() as int,
                )
                &&& spec_assigned(
                    old(self).spec_spheres(),
                    final(self).spec_spheres(),
                    spheres,
                    update.spheres,
                    old(gpu).next_id() + spec_count(new_materials),
                )
                &&& spec_assigned(
                    old(self).spec_aabbs(),
                    final(self).spec_aabbs(),
                    aabbs,
                    update.aabbs,
                    old(gpu).next_id() + spec_count(new_materials) + spec_count(new_spheres),
                )
                &&& spec_assigned(
                    old(self).spec_triangles(),
                    final(self).spec_triangles(),
                    triangles,
                    update.triangles,
                    old(gpu).next_id() + spec_count(new_materials) + spec_count(new_spheres)
                        + spec_count(new_aabbs),
                )
                &&& update.rebound == (made > 0)
                &&& final(gpu).next_id() == old(gpu).next_id() + made + spec_count(made > 0)
                &&& !update.rebound ==> final(self).spec_binding() == old(self).spec_binding()
                &&& update.rebound ==> final(self).spec_binding().spec_bind_group().id == old(gpu).next_id() + made
            },
    {
        if !changed {
            return ObjectUpdate {
                rebound: false,
                materials: None,
                spheres: None,
                aabbs: None,
                triangles: None,
            };
        }
        let materials = self.materials_buffer.assign(
            gpu,
            objects.materials.as_slice(),
            placeholders.materials.as_slice(),
        );
        let spheres = self.spheres_buffer.assign(
            gpu,
            objects.spheres.as_slice(),
            placeholders.spheres.as_slice(),
        );
        let aabbs = self.aabbs_buffer.assign(
            gpu,
            objects.aabbs.as_slice(),
            placeholders.aabbs.as_slice(),
        );
        let triangles = self.triangles_buffer.assign(
            gpu,
            objects.triangles.as_slice(),
            placeholders.triangles.as_slice(),
        );
        let rebound = materials.is_none() || spheres.is_none() || aabbs.is_none()
            || triangles.is_none();
        if rebound {
            let resources: [BindingResource; 4] = [
                self.materials_buffer.inner().as_entire_binding(),
                self.spheres_buffer.inner().as_entire_binding(),
                self.aabbs_buffer.inner().as_entire_binding(),
                self.triangles_buffer.inner().as_entire_binding(),
            ];
            assert(resources@ =~= spec_object_resources(
                self.spec_materials().spec_inner().spec_id(),
                self.spec_spheres().spec_inner().spec_id(),
                self.spec_aabbs().spec_inner().spec_id(),
                self.spec_triangles().spec_inner().spec_id(),
            ));
            assert(spec_object_layout().len() == 4);
            self.binding.rebind(gpu, resources.as_slice());
        }
        ObjectUpdate { rebound, materials, spheres, aabbs, triangles }
    }

    /// The binding set.
    pub fn binding(&self) -> (binding: &Binding)
        ensures
            *binding == self.spec_binding(),
    {
        &self.binding
    }

    /// The buffer of the materials.
    pub fn materials_buffer(&self) -> (buffer: &BufferVec)
        ensures
            *buffer == self.spec_materials(),
    {
        &self.materials_buffer
    }

    /// The buffer of the spheres.
    pub fn spheres_buffer(&self) -> (buffer: &BufferVec)
        ensures
            *buffer == self.spec_spheres(),
    {
        &self.spheres_buffer
    }

    /// The buffer of the boxes.
    pub fn aabbs_buffer(&self) -> (buffer: &BufferVec)
        ensures
            *buffer == self.spec_aabbs(),
    {
        &self.aabbs_buffer
    }

    /// The buffer of the triangles.
    pub fn triangles_buffer(&self) -> (buffer: &BufferVec)
        ensures
            *buffer == self.spec_triangles(),
    {
        &self.triangles_buffer
    }
}

} // verus!
