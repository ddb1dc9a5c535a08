//! The material pass: a compute dispatch over the whole surface.

use vstd::prelude::*;
use vstd::string::StringExecFns;
use crate::dispatch::{workgroups_for, WORKGROUP_SIZE};
use crate::render::{Command, CommandEncoder, GpuContext};
use crate::render::binding::{
    bind_storage_texture, spec_bind_storage_texture, spec_layout_of, spec_sequential, Binding,
    BindingEntry, BindingResource, StorageTextureAccess,
};
use crate::render::texture::{
    Extent3d, Texture, TextureDescriptor, TextureDimension, TextureFormat, TextureType,
    TextureUsages, TextureViewDimension,
};
use crate::render::timestamp::QueryState;
use super::SurfaceState;
use super::lookup::spec_default_view;
use super::pathtrace::{spec_color_usage, spec_is_image, spec_texture_resources};
use super::pipelines::{ComputeRecipe, ManagedComputePipeline, PipelineLayout, PipelineSet};
use crate::render::binding::{BindGroupLayout, BindGroupLayoutEntry};
use crate::render::shader::Shader;
use super::profiler::RenderProfiler;

verus! {

/// What the previous image of the pass may be used for: read as storage and
/// copied into.
pub open spec fn spec_history_usage() -> TextureUsages {
    TextureUsages {
        copy_src: false,
        copy_dst: true,
        texture_binding: false,
        storage_binding: true,
        render_attachment: false,
    }
}

/// The entries of the binding set of the two images: the current one is
/// written, the previous one read.
pub open spec fn spec_material_entries(current: u64, previous: u64) -> Seq<BindingEntry> {
    seq![
        spec_bind_storage_texture(
            spec_default_view(current),
            TextureFormat::Rgba32Float,
            TextureViewDimension::D2,
            StorageTextureAccess::WriteOnly,
        ),
        spec_bind_storage_texture(
            spec_default_view(previous),
            TextureFormat::Rgba32Float,
            TextureViewDimension::D2,
            StorageTextureAccess::ReadOnly,
        ),
    ]
}

/// The layout of the binding set of the two images. A layout records the
/// types of the slots, so it is the same whatever images are bound.
pub open spec fn spec_material_layout() -> Seq<BindGroupLayoutEntry> {
    spec_layout_of(spec_material_entries(0, 0))
}

/// The two surface-sized images of the material pass and their binding set.
#[derive(Debug)]
pub struct MaterialTextures {
    current_texture: Texture,
    previous_texture: Texture,
    binding: Binding,
}

impl MaterialTextures {
    pub closed spec fn spec_current_texture(&self) -> Texture {
        self.current_texture
    }

    pub closed spec fn spec_previous_texture(&self) -> Texture {
        self.previous_texture
    }

    pub closed spec fn spec_binding(&self) -> Binding {
        self.binding
    }

    /// Width and height of the two images.
    pub open spec fn spec_extent(&self) -> Extent3d {
        self.spec_current_texture().spec_desc().size
    }

    /// The two images have one size, and the binding set binds them in the
    /// layout that was derived when they were first made.
    pub open spec fn wf(&self) -> bool {
        &&& spec_is_image(
            &self.spec_current_texture(),
            self.spec_current_texture().spec_id(),
            "material_pass_current_texture"@,
            spec_color_usage(),
            self.spec_extent().width,
            self.spec_extent().height,
        )
        &&& spec_is_image(
            &self.spec_previous_texture(),
            self.spec_previous_texture().spec_id(),
            "material_pass_previous_texture"@,
            spec_history_usage(),
            self.spec_extent().width,
            self.spec_extent().height,
        )
        &&& self.spec_binding().wf()
        &&& self.spec_binding().spec_bind_group_layout().entries@ == spec_material_layout()
        &&& self.spec_binding().spec_bind_group().entries@ == spec_sequential(
            spec_texture_resources(
                self.spec_current_texture().spec_id(),
                self.spec_previous_texture().spec_id(),
            ),
        )
    }

    /// The descriptors of the two images for a surface: the current one, and
    /// the previous one of the same shape.
    pub fn desc(surface_state: &SurfaceState) -> (descs: (TextureDescriptor, TextureDescriptor))
        ensures
            descs.0.label@ == "material_pass_current_texture"@,
            descs.1.label@ == "material_pass_previous_texture"@,
            descs.0.usage == spec_color_usage(),
            descs.1.usage == spec_history_usage(),
            descs.0.size == (Extent3d {
                width: surface_state.width,
                height: surface_state.height,
                depth_or_array_layers: 1,
            }),
            descs.1.size == descs.0.size,
            descs.0.mip_level_count == 1 && descs.1.mip_level_count == 1,
            descs.0.sample_count == 1 && descs.1.sample_count == 1,
            descs.0.dimension == TextureDimension::D2 && descs.1.dimension == TextureDimension::D2,
            descs.0.format == TextureFormat::Rgba32Float && descs.1.format
                == TextureFormat::Rgba32Float,
            descs.0.view_formats@ == Seq::<TextureFormat>::empty(),
            descs.1.view_formats@ == Seq::<TextureFormat>::empty(),
    {
        let size = Extent3d {
            width: surface_state.width,
            height: surface_state.height,
            depth_or_array_layers: 1,
        };
        let current_desc = TextureDescriptor {
            label: String::from_str("material_pass_current_texture"),
            size,
            mip_level_count: 1,
            sample_count: 1,
            dimension: TextureDimension::D2,
            format: TextureFormat::Rgba32Float,
            usage: TextureUsages {
                copy_src: true,
                copy_dst: false,
                texture_binding: true,
                storage_binding: true,
                render_attachment: false,
            },
            view_formats: Vec::new(),
        };
        let previous_desc = TextureDescriptor {
            label: String::from_str("material_pass_previous_texture"),
            size,
            mip_level_count: 1,
            sample_count: 1,
            dimension: TextureDimension::D2,
            format: TextureFormat::Rgba32Float,
            usage: TextureUsages {
                copy_src: false,
                copy_dst: true,
                texture_binding: false,
                storage_binding: true,
                render_attachment: false,
            },
            view_formats: Vec::new(),
        };
        (current_desc, previous_desc)
    }

    /// The two images of a surface and their binding set.
    pub fn init(gpu: &mut GpuContext, surface_state: &SurfaceState) -> (textures: Self)
        requires
            old(gpu).has_room(4),
        ensures
            textures.wf(),
            textures.spec_extent() == (Extent3d {
                width: surface_state.width,
                height: surface_state.height,
                depth_or_array_layers: 1,
            }),
            textures.spec_current_texture().spec_id() == old(gpu).next_id(),
            textures.spec_previous_texture().spec_id() == old(gpu).next_id() + 1,
            textures.spec_binding().spec_bind_group_layout().id == old(gpu).next_id() + 2,
            textures.spec_binding().spec_bind_group().id == old(gpu).next_id() + 3,
            final(gpu).next_id() == old(gpu).next_id() + 4,
            final(gpu).spec_float32_filterable() == old(gpu).spec_float32_filterable(),
    {
        let (current_desc, previous_desc) = Self::desc(surface_state);
        let current_texture = Texture::create(gpu, current_desc, TextureType::Texture2d);
        let previous_texture = Texture::create(gpu, previous_desc, TextureType::Texture2d);
        let entries: [BindingEntry; 2] = [
            bind_storage_texture(
                current_texture.default_view(),
                current_texture.desc().format,
                TextureViewDimension::D2,
                StorageTextureAccess::WriteOnly,
            ),
            bind_storage_texture(
                previous_texture.default_view(),
                previous_texture.desc().format,
                TextureViewDimension::D2,
                StorageTextureAccess::ReadOnly,
            ),
        ];
        let binding = Binding::new(gpu, entries.as_slice());
        assert(binding.spec_bind_group_layout().entries@ =~= spec_material_layout());
        assert(binding.spec_bind_group().entries@ =~= spec_sequential(
            spec_texture_resources(current_texture.spec_id(), previous_texture.spec_id()),
        ));
        MaterialTextures { current_texture, previous_texture, binding }
    }

    /// Takes the surface after a resize. Where its size is the size of the
    /// images, nothing is touched. Otherwise both images are replaced and
    /// bound by a new bind group against the unchanged layout. Returns
    /// whether the images were replaced.
    pub fn on_resize(&mut self, gpu: &mut GpuContext, surface_state: &SurfaceState) -> (replaced:
        bool)
        requires
            old(self).wf(),
            old(gpu).has_room(3),
        ensures
            final(self).wf(),
            final(gpu).spec_float32_filterable() == old(gpu).spec_float32_filterable(),
            replaced
                == (old(self).spec_extent().width != surface_state.width || old(self).spec_extent().height != surface_state.height),
            !replaced ==> *final(self) == *old(self) && final(gpu).next_id() == old(gpu).next_id(),
            final(self).spec_extent() == (Extent3d {
                width: surface_state.width,
                height: surface_state.height,
                depth_or_array_layers: 1,
            }),
            final(self).spec_binding().spec_bind_group_layout()
                == old(self).spec_binding().spec_bind_group_layout(),
            replaced ==> {
                &&& final(gpu).next_id() == old(gpu).next_id() + 3
                &&& final(self).spec_current_texture().spec_id() == old(gpu).next_id()
                &&& final(self).spec_previous_texture().spec_id() == old(gpu).next_id() + 1
                &&& final(self).spec_binding().spec_bind_group().id == old(gpu).next_id() + 2
            },
    {
        let extent = self.current_texture.desc().size;
        if extent.width == surface_state.width && extent.height == surface_state.height {
            return false;
        }
        let (current_desc, previous_desc) = Self::desc(surface_state);
        let current_texture = Texture::create(gpu, current_desc, TextureType::Texture2d);
        let previous_texture = Texture::create(gpu, previous_desc, TextureType::Texture2d);
        let resources: [BindingResource; 2] = [
            BindingResource::TextureView(current_texture.default_view()),
            BindingResource::TextureView(previous_texture.default_view()),
        ];
        assert(resources@ =~= spec_texture_resources(
            current_texture.spec_id(),
            previous_texture.spec_id(),
        ));
        assert(spec_material_layout().len() == 2);
        self.binding.rebind(gpu, resources.as_slice());
        self.current_texture = current_texture;
        self.previous_texture = previous_texture;
        true
    }

    /// The image of the current frame.
    pub fn current_texture(&self) -> (texture: &Texture)
        ensures
            *texture == self.spec_current_texture(),
    {
        &self.current_texture
    }

    /// The image of the frame before.
    pub fn previous_texture(&self) -> (texture: &Texture)
        ensures
            *texture == self.spec_previous_texture(),
    {
        &self.previous_texture
    }

    /// The binding set of the two images.
    pub fn binding(&self) -> (binding: &Binding)
        ensures
            *binding == self.spec_binding(),
    {
        &self.binding
    }
}

/// The pipelines of the material pass by name, one of which is active.
pub type MaterialPipelines = PipelineSet<ManagedComputePipeline>;

/// What the material pass records for a frame: the start timestamp, the
/// copy of the current image to the previous one, the dispatch over the
/// image with its four binding sets, and the end timestamp.
pub open spec fn spec_material_commands(
    query_set: u64,
    current: u64,
    previous: u64,
    extent: Extent3d,
    bind_groups: (u64, u64, u64, u64),
    pipeline: u64,
) -> Seq<Command> {
    super::pathtrace::spec_draw_commands(
        query_set,
        current,
        previous,
        extent,
        bind_groups.0,
        bind_groups.1,
        bind_groups.2,
        bind_groups.3,
        pipeline,
    )
}

/// Records the material pass for a frame, between the two timestamps of the
/// query at `time_query_index`, with the binding sets of the screen, of the
/// objects, of the spectrum and of the two images.
pub fn draw(
    encoder: &mut CommandEncoder,
    profiler: &mut RenderProfiler,
    time_query_index: usize,
    screen_bind_group: u64,
    object_bind_group: u64,
    spectrum_bind_group: u64,
    material_textures: &MaterialTextures,
    pipeline: &ManagedComputePipeline,
)
    requires
        material_textures.wf(),
        old(profiler).wf(),
        time_query_index < old(profiler).spec_queries().len(),
        old(profiler).spec_queries()[time_query_index as int].spec_state() != QueryState::Started,
        old(encoder).spec_complete(),
    ensures
        final(encoder).spec_complete(),
        final(encoder)@ == old(encoder)@ + spec_material_commands(
            old(profiler).spec_queries()[time_query_index as int].spec_query_set(),
            material_textures.spec_current_texture().spec_id(),
            material_textures.spec_previous_texture().spec_id(),
            material_textures.spec_extent(),
            (
                screen_bind_group,
                object_bind_group,
                spectrum_bind_group,
                material_textures.spec_binding().spec_bind_group().id,
            ),
            pipeline.spec_pipeline(),
        ),
        final(profiler).wf(),
        final(profiler).spec_names() == old(profiler).spec_names(),
        final(profiler).spec_times() == old(profiler).spec_times(),
        final(profiler).spec_sample_window() == old(profiler).spec_sample_window(),
        final(profiler).spec_queries().len() == old(profiler).spec_queries().len(),
        forall|i: int|
            0 <= i < old(profiler).spec_queries().len() && i != time_query_index
                ==> final(profiler).spec_queries()[i] == old(profiler).spec_queries()[i],
        final(profiler).spec_queries()[time_query_index as int].spec_state() == QueryState::Ended,
{
    let extent = material_textures.current_texture().desc().size;
    profiler.write_start_timestamp(time_query_index, encoder);
    encoder.record(
        Command::CopyTextureToTexture {
            source: material_textures.current_texture().inner(),
            destination: material_textures.previous_texture().inner(),
            extent,
        },
    );
    encoder.record(Command::BeginComputePass);
    encoder.record(Command::SetBindGroup { index: 0, bind_group: screen_bind_group });
    encoder.record(Command::SetBindGroup { index: 1, bind_group: object_bind_group });
    encoder.record(Command::SetBindGroup { index: 2, bind_group: spectrum_bind_group });
    encoder.record(
        Command::SetBindGroup { index: 3, bind_group: material_textures.binding().bind_group().id },
    );
    encoder.record(Command::SetPipeline { pipeline: pipeline.pipeline() });
    proof {
        crate::dispatch::lemma_workgroups_cover(extent.width as int, WORKGROUP_SIZE as int);
        crate::dispatch::lemma_workgroups_cover(extent.height as int, WORKGROUP_SIZE as int);
    }
    encoder.record(
        Command::DispatchWorkgroups {
            x: workgroups_for(extent.width, WORKGROUP_SIZE),
            y: workgroups_for(extent.height, WORKGROUP_SIZE),
            z: 1,
        },
    );
    encoder.record(Command::EndPass);
    profiler.write_end_timestamp(time_query_index, encoder);
    assert(encoder@ =~= old(encoder)@ + spec_material_commands(
        old(profiler).spec_queries()[time_query_index as int].spec_query_set(),
        material_textures.spec_current_texture().spec_id(),
        material_textures.spec_previous_texture().spec_id(),
        material_textures.spec_extent(),
        (
            screen_bind_group,
            object_bind_group,
            spectrum_bind_group,
            material_textures.spec_binding().spec_bind_group().id,
        ),
        pipeline.spec_pipeline(),
    ));
}


/// The shader that names the pipeline of the material pass.
pub const MATERIAL_PIPELINE: &'static str = "pathtrace.slang";

/// The pipelines of the material pass: one, named after its shader and
/// active. Its layout holds, in this order, the layouts of the screen, of
/// the objects, of the spectrum and of the two images.
pub fn init_pipelines(
    gpu: &mut GpuContext,
    screen_layout: &BindGroupLayout,
    object_layout: &BindGroupLayout,
    spectrum_layout: &BindGroupLayout,
    material_textures: &MaterialTextures,
    shader: Shader,
) -> (pipelines: MaterialPipelines)
    requires
        shader.wf(),
        shader.spec_ready(),
        old(gpu).has_room(2),
    ensures
        pipelines.wf(),
        pipelines.spec_active() == MATERIAL_PIPELINE@,
        pipelines.spec_names().len() == 1,
        pipelines.spec_names()[0]@ == MATERIAL_PIPELINE@,
        pipelines.spec_pipelines().len() == 1,
        pipelines.spec_pipelines()[0].wf(),
        pipelines.spec_pipelines()[0].spec_layout().id == old(gpu).next_id(),
        pipelines.spec_pipelines()[0].spec_layout().label == "material_pipeline_layout",
        pipelines.spec_pipelines()[0].spec_layout().bind_group_layouts@ == seq![
            screen_layout.id,
            object_layout.id,
            spectrum_layout.id,
            material_textures.spec_binding().spec_bind_group_layout().id,
        ],
        pipelines.spec_pipelines()[0].spec_pipeline() == old(gpu).next_id() + 1,
        pipelines.spec_pipelines()[0].spec_shader() == shader,
        pipelines.spec_pipelines()[0].spec_recipe().label == MATERIAL_PIPELINE,
        pipelines.spec_pipelines()[0].spec_recipe().entry_point == "compute",
        final(gpu).next_id() == old(gpu).next_id() + 2,
        final(gpu).spec_float32_filterable() == old(gpu).spec_float32_filterable(),
{
    let layouts: [&BindGroupLayout; 4] = [
        screen_layout,
        object_layout,
        spectrum_layout,
        material_textures.binding().bind_group_layout(),
    ];
    let layout = PipelineLayout::new(gpu, "material_pipeline_layout", layouts.as_slice());
    assert(layout.bind_group_layouts@ =~= seq![
        screen_layout.id,
        object_layout.id,
        spectrum_layout.id,
        material_textures.spec_binding().spec_bind_group_layout().id,
    ]);
    let pipeline = ManagedComputePipeline::new(
        gpu,
        layout,
        shader,
        ComputeRecipe { label: MATERIAL_PIPELINE, entry_point: "compute" },
    );
    MaterialPipelines::init(MATERIAL_PIPELINE, pipeline)
}

} // verus!
