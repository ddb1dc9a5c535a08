//! The path tracing pass: a compute dispatch over the viewport that keeps
//! the image of the frame before for temporal reuse.

use vstd::prelude::*;
use vstd::pervasive::unreached;
use vstd::string::StringExecFns;
use crate::dispatch::{spec_workgroups_for, workgroups_for, WORKGROUP_SIZE};
use crate::render::{
    lemma_run_push, spec_run, spec_well_formed, Command, CommandEncoder, EncoderState, GpuContext,
};
use crate::render::binding::{
    bind_storage_texture, bind_texture, spec_bind_storage_texture, spec_bind_texture,
    spec_layout_of, spec_sequential, BindGroupLayout, BindGroupLayoutEntry, Binding, BindingEntry,
    BindingResource, StorageTextureAccess,
};
use crate::render::shader::{
    Shader, ShaderData, ShaderError, ShaderModuleDescriptor, ShaderModuleDescriptorView,
    ShaderState,
};
use crate::render::texture::{
    Extent3d, Texture, TextureDescriptor, TextureDimension, TextureFormat,
    TextureSampleType, TextureType, TextureUsages, TextureViewDimension,
};
use crate::render::timestamp::QueryState;
use super::RendererViewport;
use super::lookup::{spec_default_view, SpectrumBinding};
use super::pipelines::{
    spec_begun, spec_ended, spec_falls_back, spec_one, spec_reload_error, spec_reloaded,
    ComputeRecipe, ManagedComputePipeline, PipelineLayout,
};
use super::profiler::RenderProfiler;

verus! {

/// What the image of the current frame may be used for: written by the
/// dispatch, copied from, and sampled by the pass behind.
pub open spec fn spec_color_usage() -> TextureUsages {
    TextureUsages {
        copy_src: true,
        copy_dst: false,
        texture_binding: true,
        storage_binding: true,
        render_attachment: false,
    }
}

/// What the image of the frame before may be used for: copied into and sampled.
pub open spec fn spec_previous_usage() -> TextureUsages {
    TextureUsages {
        copy_src: false,
        copy_dst: true,
        texture_binding: true,
        storage_binding: false,
        render_attachment: false,
    }
}

/// Whether `texture` is a viewport-sized image of the pass: two-dimensional,
/// of 32-bit float channels, one level, one sample, `width` by `height`.
pub open spec fn spec_is_image(
    texture: &Texture,
    id: u64,
    label: Seq<char>,
    usage: TextureUsages,
    width: u32,
    height: u32,
) -> bool {
    &&& texture.spec_id() == id
    &&& texture.spec_ty() == TextureType::Texture2d
    &&& texture.spec_desc().label@ == label
    &&& texture.spec_desc().size == (Extent3d { width, height, depth_or_array_layers: 1 })
    &&& texture.spec_desc().mip_level_count == 1
    &&& texture.spec_desc().sample_count == 1
    &&& texture.spec_desc().dimension == TextureDimension::D2
    &&& texture.spec_desc().format == TextureFormat::Rgba32Float
    &&& texture.spec_desc().usage == usage
    &&& texture.spec_desc().view_formats@ == Seq::<TextureFormat>::empty()
}

/// The entries of the binding set of the two images.
pub open spec fn spec_texture_entries(color: u64, previous: u64, float32_filterable: bool) -> Seq<
    BindingEntry,
> {
    seq![
        spec_bind_storage_texture(
            spec_default_view(color),
            TextureFormat::Rgba32Float,
            TextureViewDimension::D2,
            StorageTextureAccess::ReadWrite,
        ),
        spec_bind_texture(
            spec_default_view(previous),
            TextureSampleType::Float { filterable: float32_filterable },
            TextureViewDimension::D2,
        ),
    ]
}

/// The layout of the binding set of the two images. A layout records the
/// types of the slots, so it is the same whatever images are bound.
pub open spec fn spec_texture_layout(float32_filterable: bool) -> Seq<BindGroupLayoutEntry> {
    spec_layout_of(spec_texture_entries(0, 0, float32_filterable))
}

/// The views of the two images, in the order they are bound in.
pub open spec fn spec_texture_resources(color: u64, previous: u64) -> Seq<BindingResource> {
    seq![
        BindingResource::TextureView(spec_default_view(color)),
        BindingResource::TextureView(spec_default_view(previous)),
    ]
}

/// What the pass records for a frame: the start timestamp, the copy of the
/// current image to the previous one, the dispatch over the image with its
/// four binding sets, and the end timestamp.
pub open spec fn spec_draw_commands(
    query_set: u64,
    color: u64,
    previous: u64,
    extent: Extent3d,
    screen_bind_group: u64,
    object_bind_group: u64,
    texture_bind_group: u64,
    lut_bind_group: u64,
    pipeline: u64,
) -> Seq<Command> {
    seq![
        Command::WriteTimestamp { query_set, index: 0 },
        Command::CopyTextureToTexture { source: color, destination: previous, extent },
        Command::BeginComputePass,
        Command::SetBindGroup { index: 0, bind_group: screen_bind_group },
        Command::SetBindGroup { index: 1, bind_group: object_bind_group },
        Command::SetBindGroup { index: 2, bind_group: texture_bind_group },
        Command::SetBindGroup { index: 3, bind_group: lut_bind_group },
        Command::SetPipeline { pipeline },
        Command::DispatchWorkgroups {
            x: spec_workgroups_for(extent.width as int, WORKGROUP_SIZE as int) as u32,
            y: spec_workgroups_for(extent.height as int, WORKGROUP_SIZE as int) as u32,
            z: 1,
        },
        Command::EndPass,
        Command::WriteTimestamp { query_set, index: 1 },
    ]
}

/// What the pass records is a whole recording: the timestamps bracket the
/// copy and the compute pass, the pass that begins ends, and the dispatch
/// stands behind the pipeline.
pub proof fn lemma_draw_commands_well_formed(
    query_set: u64,
    color: u64,
    previous: u64,
    extent: Extent3d,
    screen_bind_group: u64,
    object_bind_group: u64,
    texture_bind_group: u64,
    lut_bind_group: u64,
    pipeline: u64,
)
    ensures
        spec_well_formed(
            spec_draw_commands(
                query_set,
                color,
                previous,
                extent,
                screen_bind_group,
                object_bind_group,
                texture_bind_group,
                lut_bind_group,
                pipeline,
            ),
        ),
{
    let all = spec_draw_commands(
        query_set,
        color,
        previous,
        extent,
        screen_bind_group,
        object_bind_group,
        texture_bind_group,
        lut_bind_group,
        pipeline,
    );
    let outside = EncoderState::Outside;
    assert(spec_run(outside, all.take(0)) == Some(outside));
    assert forall|i: int| 0 <= i < all.len() implies all.take(i + 1) == #[trigger] all.take(
        i,
    ).push(all[i]) by {
        assert(all.take(i + 1) =~= all.take(i).push(all[i]));
    }
    lemma_run_push(outside, all.take(0), all[0]);
    lemma_run_push(outside, all.take(1), all[1]);
    lemma_run_push(outside, all.take(2), all[2]);
    lemma_run_push(outside, all.take(3), all[3]);
    lemma_run_push(outside, all.take(4), all[4]);
    lemma_run_push(outside, all.take(5), all[5]);
    lemma_run_push(outside, all.take(6), all[6]);
    lemma_run_push(outside, all.take(7), all[7]);
    lemma_run_push(outside, all.take(8), all[8]);
    lemma_run_push(outside, all.take(9), all[9]);
    lemma_run_push(outside, all.take(10), all[10]);
    assert(all.take(11) =~= all);
}

/// Whether images of `extent` are replaced when the viewport is
/// `renderer_viewport`: only if its width or its height is another.
pub open spec fn spec_resize_replaces(extent: Extent3d, renderer_viewport: RendererViewport) -> bool {
    extent.width != renderer_viewport.spec_width() || extent.height
        != renderer_viewport.spec_height()
}

/// The extent of the images of a viewport.
pub open spec fn spec_image_extent(renderer_viewport: RendererViewport) -> Extent3d {
    Extent3d {
        width: renderer_viewport.spec_width(),
        height: renderer_viewport.spec_height(),
        depth_or_array_layers: 1,
    }
}

/// A resize is idempotent: images that were made for a viewport are not
/// replaced by another resize to that viewport, nor to one of the same size
/// elsewhere in the window. Nothing is allocated without need.
pub proof fn lemma_resize_is_idempotent(first: RendererViewport, second: RendererViewport)
    requires
        first.spec_width() == second.spec_width(),
        first.spec_height() == second.spec_height(),
    ensures
        !spec_resize_replaces(spec_image_extent(first), second),
{
}

/// The path tracing pass.
#[derive(Debug)]
pub struct PathtracePass {
    color_texture: Texture,
    previous_color_texture: Texture,
    texture_binding: Binding,
    lut_binding: SpectrumBinding,
    pipeline: ManagedComputePipeline,
    time_query_index: usize,
    float32_filterable: bool,
}

impl PathtracePass {
    pub closed spec fn spec_color_texture(&self) -> Texture {
        self.color_texture
    }

    pub closed spec fn spec_previous_color_texture(&self) -> Texture {
        self.previous_color_texture
    }

    pub closed spec fn spec_texture_binding(&self) -> Binding {
        self.texture_binding
    }

    pub closed spec fn spec_lut_binding(&self) -> SpectrumBinding {
        self.lut_binding
    }

    pub closed spec fn spec_pipeline(&self) -> ManagedComputePipeline {
        self.pipeline
    }

    pub closed spec fn spec_time_query_index(&self) -> usize {
        self.time_query_index
    }

    pub closed spec fn spec_float32_filterable(&self) -> bool {
        self.float32_filterable
    }

    /// Width and height of the two images.
    pub open spec fn spec_extent(&self) -> Extent3d {
        self.spec_color_texture().spec_desc().size
    }

    /// The two images have one size, and the binding set binds them, in the
    /// layout that was derived from them when the pass was made.
    pub open spec fn wf(&self) -> bool {
        &&& spec_is_image(
            &self.spec_color_texture(),
            self.spec_color_texture().spec_id(),
            "pathtrace_color_texture"@,
            spec_color_usage(),
            self.spec_extent().width,
            self.spec_extent().height,
        )
        &&& spec_is_image(
            &self.spec_previous_color_texture(),
            self.spec_previous_color_texture().spec_id(),
            "pathtrace_previous_color_texture"@,
            spec_previous_usage(),
            self.spec_extent().width,
            self.spec_extent().height,
        )
        &&& self.spec_texture_binding().wf()
        &&& self.spec_texture_binding().spec_bind_group_layout().entries@ == spec_texture_layout(
            self.spec_float32_filterable(),
        )
        &&& self.spec_texture_binding().spec_bind_group().entries@ == spec_sequential(
            spec_texture_resources(
                self.spec_color_texture().spec_id(),
                self.spec_previous_color_texture().spec_id(),
            ),
        )
        &&& self.spec_pipeline().wf()
    }

    /// The two images of a viewport: the current one, and the previous one
    /// with the same shape.
    pub fn create_textures(gpu: &mut GpuContext, renderer_viewport: &RendererViewport) -> (images: (
        Texture,
        Texture,
    ))
        requires
            renderer_viewport.wf(),
            old(gpu).has_room(2),
        ensures
            spec_is_image(
                &images.0,
                old(gpu).next_id(),
                "pathtrace_color_texture"@,
                spec_color_usage(),
                renderer_viewport.spec_width(),
                renderer_viewport.spec_height(),
            ),
            spec_is_image(
                &images.1,
                (old(gpu).next_id() + 1) as u64,
                "pathtrace_previous_color_texture"@,
                spec_previous_usage(),
                renderer_viewport.spec_width(),
                renderer_viewport.spec_height(),
            ),
            final(gpu).next_id() == old(gpu).next_id() + 2,
            final(gpu).spec_float32_filterable() == old(gpu).spec_float32_filterable(),
    {
        let color_texture = Texture::create(
            gpu,
            TextureDescriptor {
                label: String::from_str("pathtrace_color_texture"),
                size: Extent3d {
                    width: renderer_viewport.get_width(),
                    height: renderer_viewport.get_height(),
                    depth_or_array_layers: 1,
                },
                mip_level_count: 1,
                sample_count: 1,
                dimension: TextureDimension::D2,
                format: TextureFormat::Rgba32Float,
                usage: TextureUsages {
                    copy_src: true,
                    copy_dst: false,
                    texture_binding: true,
                    storage_binding: true,
                    render_attachment: false,
                },
                view_formats: Vec::new(),
            },
            TextureType::Texture2d,
        );
        let previous_color_texture = Texture::create(
            gpu,
            TextureDescriptor {
                label: String::from_str("pathtrace_previous_color_texture"),
                size: color_texture.desc().size,
                mip_level_count: color_texture.desc().mip_level_count,
                sample_count: color_texture.desc().sample_count,
                dimension: color_texture.desc().dimension,
                format: color_texture.desc().format,
                usage: TextureUsages {
                    copy_src: false,
                    copy_dst: true,
                    texture_binding: true,
                    storage_binding: false,
                    render_attachment: false,
                },
                view_formats: Vec::new(),
            },
            TextureType::Texture2d,
        );
        (color_texture, previous_color_texture)
    }

    /// The binding set of the two images: the current one as storage, the
    /// previous one sampled.
    pub fn create_texture_binding(
        gpu: &mut GpuContext,
        color_texture: &Texture,
        previous_color_texture: &Texture,
    ) -> (binding: Binding)
        requires
            old(gpu).has_room(2),
            color_texture.spec_desc().format == TextureFormat::Rgba32Float,
            previous_color_texture.spec_desc().format == TextureFormat::Rgba32Float,
        ensures
            binding.wf(),
            binding.spec_bind_group_layout().id == old(gpu).next_id(),
            binding.spec_bind_group_layout().entries@ == spec_texture_layout(
                old(gpu).spec_float32_filterable(),
            ),
            binding.spec_bind_group().id == old(gpu).next_id() + 1,
            binding.spec_bind_group().entries@ == spec_sequential(
                spec_texture_resources(color_texture.spec_id(), previous_color_texture.spec_id()),
            ),
            final(gpu).next_id() == old(gpu).next_id() + 2,
            final(gpu).spec_float32_filterable() == old(gpu).spec_float32_filterable(),
    {
        let sample_type = match previous_color_texture.desc().format.sample_type(
            gpu.float32_filterable(),
        ) {
            Some(sample_type) => sample_type,
            None => unreached(),
        };
        let entries: [BindingEntry; 2] = [
            bind_storage_texture(
                color_texture.default_view(),
                color_texture.desc().format,
                TextureViewDimension::D2,
                StorageTextureAccess::ReadWrite,
            ),
            bind_texture(previous_color_texture.default_view(), sample_type, TextureViewDimension::D2),
        ];
        let binding = Binding::new(gpu, entries.as_slice());
        assert(binding.spec_bind_group_layout().entries@ =~= spec_texture_layout(
            old(gpu).spec_float32_filterable(),
        ));
        assert(binding.spec_bind_group().entries@ =~= spec_sequential(
            spec_texture_resources(color_texture.spec_id(), previous_color_texture.spec_id()),
        ));
        binding
    }

    /// The files of the spectral tables of the pass: that of the table from
    /// wavelength to tristimulus values, then that of the table from color
    /// to spectral intensity.
    pub fn lut_files() -> (paths: (String, String))
        ensures
            paths.0@ == "assets/textures/wavelength_to_xyz.bin"@,
            paths.1@ == "assets/textures/rgb_to_spectral_intensity.bin"@,
    {
        (
            String::from_str("assets/textures/wavelength_to_xyz.bin"),
            String::from_str("assets/textures/rgb_to_spectral_intensity.bin"),
        )
    }

    /// The spectral tables of the pass, filled with what was read from
    /// their files, and their binding set.
    pub fn create_lut_binding(gpu: &mut GpuContext, wavelength: Vec<u8>, intensity: Vec<u8>) -> (tables:
        SpectrumBinding)
        requires
            old(gpu).has_room(4),
        ensures
            tables.wavelength_to_xyz.contents@ == wavelength@,
            tables.rgb_to_spectral_intensity.contents@ == intensity@,
            tables.spec_made_from(
                old(gpu).next_id(),
                "assets/textures/wavelength_to_xyz.bin"@,
                "assets/textures/rgb_to_spectral_intensity.bin"@,
            ),
            final(gpu).next_id() == old(gpu).next_id() + 4,
            final(gpu).spec_float32_filterable() == old(gpu).spec_float32_filterable(),
    {
        let (wavelength_path, intensity_path) = Self::lut_files();
        SpectrumBinding::from_files(gpu, wavelength_path, intensity_path, wavelength, intensity)
    }

    /// The file of the shader of the pass, among the compiled shaders.
    pub fn create_shader() -> (path: String)
        ensures
            path@ == crate::util::spec_shader_dir() + crate::util::spec_with_extension(
                "pathtrace.slang"@,
                "spv"@,
            ),
    {
        proof {
            reveal_strlit("pathtrace.slang");
            crate::util::lemma_last_index_of("pathtrace.slang"@, '\\');
        }
        crate::util::shader_path("pathtrace.slang")
    }

    /// How the pipeline of the pass is made.
    pub fn create_pipeline() -> (recipe: ComputeRecipe)
        ensures
            recipe.label == "pathtrace_compute_pipeline",
            recipe.entry_point == "compute",
    {
        ComputeRecipe { label: "pathtrace_compute_pipeline", entry_point: "compute" }
    }

    /// The pass for a viewport. Its pipeline layout holds, in this order, the
    /// layouts of the screen, of the objects, of the two images and of the
    /// spectral tables. The pass registers its timestamp query with the
    /// profiler, once.
    pub fn new(
        gpu: &mut GpuContext,
        renderer_viewport: &RendererViewport,
        screen_layout: &BindGroupLayout,
        object_layout: &BindGroupLayout,
        shader: Shader,
        wavelength: Vec<u8>,
        intensity: Vec<u8>,
        profiler: &mut RenderProfiler,
    ) -> (pass: Self)
        requires
            renderer_viewport.wf(),
            shader.wf(),
            shader.spec_ready(),
            old(profiler).wf(),
            old(gpu).has_room(13),
        ensures
            pass.wf(),
            pass.spec_lut_binding().wavelength_to_xyz.contents@ == wavelength@,
            pass.spec_lut_binding().rgb_to_spectral_intensity.contents@ == intensity@,
            pass.spec_float32_filterable() == old(gpu).spec_float32_filterable(),
            pass.spec_extent() == (Extent3d {
                width: renderer_viewport.spec_width(),
                height: renderer_viewport.spec_height(),
                depth_or_array_layers: 1,
            }),
            pass.spec_color_texture().spec_id() == old(gpu).next_id(),
            pass.spec_previous_color_texture().spec_id() == old(gpu).next_id() + 1,
            pass.spec_texture_binding().spec_bind_group_layout().id == old(gpu).next_id() + 2,
            pass.spec_texture_binding().spec_bind_group().id == old(gpu).next_id() + 3,
            pass.spec_lut_binding().spec_made_from(
                (old(gpu).next_id() + 4) as u64,
                "assets/textures/wavelength_to_xyz.bin"@,
                "assets/textures/rgb_to_spectral_intensity.bin"@,
            ),
            pass.spec_pipeline().spec_layout().id == old(gpu).next_id() + 8,
            pass.spec_pipeline().spec_layout().bind_group_layouts@ == seq![
                screen_layout.id,
                object_layout.id,
                (old(gpu).next_id() + 2) as u64,
                (old(gpu).next_id() + 6) as u64,
            ],
            pass.spec_pipeline().spec_pipeline() == old(gpu).next_id() + 9,
            pass.spec_pipeline().spec_shader() == shader,
            pass.spec_pipeline().spec_recipe().label == "pathtrace_compute_pipeline",
            pass.spec_pipeline().spec_recipe().entry_point == "compute",
            pass.spec_pipeline().spec_layout().label == "pathtrace_pipeline_layout",
            pass.spec_time_query_index() == old(profiler).spec_queries().len(),
            final(profiler).wf(),
            final(profiler).spec_queries().len() == old(profiler).spec_queries().len() + 1,
            final(profiler).spec_queries().drop_last() == old(profiler).spec_queries(),
            final(profiler).spec_names().drop_last() == old(profiler).spec_names(),
            final(profiler).spec_names().last()@ == "pathtrace"@,
            final(profiler).spec_queries().last().spec_state() == QueryState::Idle,
            final(profiler).spec_times() == old(profiler).spec_times(),
            final(profiler).spec_sample_window() == old(profiler).spec_sample_window(),
            final(gpu).next_id() == old(gpu).next_id() + 13,
            final(gpu).spec_float32_filterable() == old(gpu).spec_float32_filterable(),
    {
        let float32_filterable = gpu.float32_filterable();
        let (color_texture, previous_color_texture) = Self::create_textures(gpu, renderer_viewport);
        let texture_binding = Self::create_texture_binding(
            gpu,
            &color_texture,
            &previous_color_texture,
        );
        let lut_binding = Self::create_lut_binding(gpu, wavelength, intensity);
        let layouts: [&BindGroupLayout; 4] = [
            screen_layout,
            object_layout,
            texture_binding.bind_group_layout(),
            lut_binding.binding.bind_group_layout(),
        ];
        let pipeline_layout = PipelineLayout::new(gpu, "pathtrace_pipeline_layout", layouts.as_slice());
        assert(pipeline_layout.bind_group_layouts@ =~= seq![
            screen_layout.id,
            object_layout.id,
            (old(gpu).next_id() + 2) as u64,
            (old(gpu).next_id() + 6) as u64,
        ]);
        let pipeline = ManagedComputePipeline::new(
            gpu,
            pipeline_layout,
            shader,
            Self::create_pipeline(),
        );
        let time_query_index = profiler.push(gpu, "pathtrace");
        PathtracePass {
            color_texture,
            previous_color_texture,
            texture_binding,
            lut_binding,
            pipeline,
            time_query_index,
            float32_filterable,
        }
    }

    /// Records the pass for a frame, between the two timestamps of its query.
    pub fn draw(
        &self,
        encoder: &mut CommandEncoder,
        profiler: &mut RenderProfiler,
        screen_bind_group: u64,
        object_bind_group: u64,
    )
        requires
            self.wf(),
            old(profiler).wf(),
            self.spec_time_query_index() < old(profiler).spec_queries().len(),
            old(profiler).spec_queries()[self.spec_time_query_index() as int].spec_state()
                != QueryState::Started,
            old(encoder).spec_complete(),
        ensures
            final(encoder).spec_complete(),
            final(encoder)@ == old(encoder)@ + spec_draw_commands(
                old(profiler).spec_queries()[self.spec_time_query_index() as int].spec_query_set(),
                self.spec_color_texture().spec_id(),
                self.spec_previous_color_texture().spec_id(),
                self.spec_extent(),
                screen_bind_group,
                object_bind_group,
                self.spec_texture_binding().spec_bind_group().id,
                self.spec_lut_binding().binding.spec_bind_group().id,
                self.spec_pipeline().spec_pipeline(),
            ),
            final(profiler).wf(),
            final(profiler).spec_names() == old(profiler).spec_names(),
            final(profiler).spec_times() == old(profiler).spec_times(),
            final(profiler).spec_sample_window() == old(profiler).spec_sample_window(),
            final(profiler).spec_queries().len() == old(profiler).spec_queries().len(),
            forall|i: int|
                0 <= i < old(profiler).spec_queries().len() && i != self.spec_time_query_index()
                    ==> final(profiler).spec_queries()[i] == old(profiler).spec_queries()[i],
            final(profiler).spec_queries()[self.spec_time_query_index() as int].spec_state()
                == QueryState::Ended,
            final(profiler).spec_queries()[self.spec_time_query_index() as int].spec_query_set()
                == old(profiler).spec_queries()[self.spec_time_query_index() as int].spec_query_set(),
    {
        let extent = self.color_texture.desc().size;
        profiler.write_start_timestamp(self.time_query_index, encoder);
        encoder.record(
            Command::CopyTextureToTexture {
                source: self.color_texture.inner(),
                destination: self.previous_color_texture.inner(),
                extent,
            },
        );
        encoder.record(Command::BeginComputePass);
        encoder.record(Command::SetBindGroup { index: 0, bind_group: screen_bind_group });
        encoder.record(Command::SetBindGroup { index: 1, bind_group: object_bind_group });
        encoder.record(
            Command::SetBindGroup { index: 2, bind_group: self.texture_binding.bind_group().id },
        );
        encoder.record(
            Command::SetBindGroup { index: 3, bind_group: self.lut_binding.binding.bind_group().id },
        );
        encoder.record(Command::SetPipeline { pipeline: self.pipeline.pipeline() });
        proof {
            crate::dispatch::lemma_workgroups_cover(extent.width as int, WORKGROUP_SIZE as int);
            crate::dispatch::lemma_workgroups_cover(extent.height as int, WORKGROUP_SIZE as int);
        }
        encoder.record(
            Command::DispatchWorkgroups {
                x: workgroups_for(extent.width, WORKGROUP_SIZE),
                y: workgroups_for(extent.height, WORKGROUP_SIZE),
                z: 1,
            },
        );
        encoder.record(Command::EndPass);
        profiler.write_end_timestamp(self.time_query_index, encoder);
        assert(encoder@ =~= old(encoder)@ + spec_draw_commands(
            old(profiler).spec_queries()[self.spec_time_query_index() as int].spec_query_set(),
            self.spec_color_texture().spec_id(),
            self.spec_previous_color_texture().spec_id(),
            self.spec_extent(),
            screen_bind_group,
            object_bind_group,
            self.spec_texture_binding().spec_bind_group().id,
            self.spec_lut_binding().binding.spec_bind_group().id,
            self.spec_pipeline().spec_pipeline(),
        ));
    }

    /// Takes the viewport after a resize. Where its size is the size of the
    /// images, nothing is touched. Otherwise both images are replaced by new
    /// ones of the new size and the same format and usage, and they are bound
    /// by a new bind group against the layout the pass always had; the
    /// tables and the pipeline stay. Returns whether the images were replaced.
    pub fn on_resize(&mut self, gpu: &mut GpuContext, renderer_viewport: &RendererViewport) -> (replaced:
        bool)
        requires
            old(self).wf(),
            renderer_viewport.wf(),
            old(gpu).has_room(3),
        ensures
            final(self).wf(),
            final(gpu).spec_float32_filterable() == old(gpu).spec_float32_filterable(),
            replaced == spec_resize_replaces(old(self).spec_extent(), *renderer_viewport),
            !replaced ==> *final(self) == *old(self) && final(gpu).next_id() == old(gpu).next_id(),
            final(self).spec_extent() == spec_image_extent(*renderer_viewport),
            final(self).spec_texture_binding().spec_bind_group_layout()
                == old(self).spec_texture_binding().spec_bind_group_layout(),
            final(self).spec_lut_binding() == old(self).spec_lut_binding(),
            final(self).spec_pipeline() == old(self).spec_pipeline(),
            final(self).spec_time_query_index() == old(self).spec_time_query_index(),
            final(self).spec_float32_filterable() == old(self).spec_float32_filterable(),
            replaced ==> {
                &&& final(gpu).next_id() == old(gpu).next_id() + 3
                &&& final(self).spec_color_texture().spec_id() == old(gpu).next_id()
                &&& final(self).spec_previous_color_texture().spec_id() == old(gpu).next_id() + 1
                &&& final(self).spec_texture_binding().spec_bind_group().id == old(gpu).next_id()
                    + 2
            },
    {
        let extent = self.color_texture.desc().size;
        if extent.width == renderer_viewport.get_width() && extent.height
            == renderer_viewport.get_height() {
            return false;
        }
        let (color_texture, previous_color_texture) = Self::create_textures(gpu, renderer_viewport);
        let resources: [BindingResource; 2] = [
            BindingResource::TextureView(color_texture.default_view()),
            BindingResource::TextureView(previous_color_texture.default_view()),
        ];
        assert(resources@ =~= spec_texture_resources(
            color_texture.spec_id(),
            previous_color_texture.spec_id(),
        ));
        assert(spec_texture_layout(self.float32_filterable).len() == 2);
        self.texture_binding.rebind(gpu, resources.as_slice());
        self.color_texture = color_texture;
        self.previous_color_texture = previous_color_texture;
        true
    }

    /// Takes a new read of the shader file and starts making its module.
    /// Nothing but the shader changes: the pass goes on with the pipeline it
    /// has. A read that a binary shader cannot take is an error and leaves
    /// the pass as it was.
    pub fn on_shader_reload(&mut self, gpu: &mut GpuContext, data: Option<ShaderData>) -> (desc:
        Result<ShaderModuleDescriptor, ShaderError>)
        requires
            old(self).wf(),
            old(gpu).has_room(1),
        ensures
            final(self).wf(),
            final(gpu).spec_float32_filterable() == old(gpu).spec_float32_filterable(),
            final(self).spec_color_texture() == old(self).spec_color_texture(),
            final(self).spec_previous_color_texture() == old(self).spec_previous_color_texture(),
            final(self).spec_texture_binding() == old(self).spec_texture_binding(),
            final(self).spec_lut_binding() == old(self).spec_lut_binding(),
            final(self).spec_time_query_index() == old(self).spec_time_query_index(),
            final(self).spec_float32_filterable() == old(self).spec_float32_filterable(),
            final(self).spec_pipeline().spec_pipeline()
                == old(self).spec_pipeline().spec_pipeline(),
            final(self).spec_pipeline().spec_layout() == old(self).spec_pipeline().spec_layout(),
            final(self).spec_pipeline().spec_recipe() == old(self).spec_pipeline().spec_recipe(),
            match desc {
                Ok(d) => {
                    &&& spec_reload_error(old(self).spec_pipeline().spec_shader(), data) is None
                    &&& d@ == spec_reloaded(old(self).spec_pipeline().spec_shader(), data)
                    &&& spec_begun(
                        old(self).spec_pipeline().spec_shader(),
                        final(self).spec_pipeline().spec_shader(),
                        data,
                        old(gpu).next_id() as int,
                    )
                    &&& final(gpu).next_id() == old(gpu).next_id() + 1
                },
                Err(e) => {
                    &&& spec_reload_error(old(self).spec_pipeline().spec_shader(), data) == Some(e)
                    &&& *final(self) == *old(self)
                    &&& final(gpu).next_id() == old(gpu).next_id()
                },
            },
    {
        self.pipeline.begin_reload(gpu, data)
    }

    /// Ends a shader reload with the device's report: the pipeline is made
    /// anew against its unchanged layout, with the fallback as its module
    /// where the compile failed. Images and binding sets are untouched.
    pub fn finish_shader_reload(&mut self, gpu: &mut GpuContext, device_error: Option<String>) -> (fallback:
        Option<ShaderModuleDescriptor>)
        requires
            old(self).wf(),
            old(self).spec_pipeline().spec_shader().spec_state() == ShaderState::Compiling
                || old(self).spec_pipeline().spec_shader().spec_ready(),
            old(gpu).has_room(2),
        ensures
            final(self).wf(),
            final(gpu).spec_float32_filterable() == old(gpu).spec_float32_filterable(),
            final(self).spec_color_texture() == old(self).spec_color_texture(),
            final(self).spec_previous_color_texture() == old(self).spec_previous_color_texture(),
            final(self).spec_texture_binding() == old(self).spec_texture_binding(),
            final(self).spec_lut_binding() == old(self).spec_lut_binding(),
            final(self).spec_time_query_index() == old(self).spec_time_query_index(),
            final(self).spec_float32_filterable() == old(self).spec_float32_filterable(),
            final(self).spec_pipeline().spec_layout() == old(self).spec_pipeline().spec_layout(),
            final(self).spec_pipeline().spec_recipe() == old(self).spec_pipeline().spec_recipe(),
            final(self).spec_pipeline().spec_shader().spec_ready(),
            spec_ended(
                old(self).spec_pipeline().spec_shader(),
                final(self).spec_pipeline().spec_shader(),
                device_error,
                old(gpu).next_id() as int,
            ),
            final(self).spec_pipeline().spec_pipeline() == old(gpu).next_id() + spec_one(
                spec_falls_back(old(self).spec_pipeline().spec_shader(), device_error),
            ),
            final(gpu).next_id() == old(gpu).next_id() + spec_one(
                spec_falls_back(old(self).spec_pipeline().spec_shader(), device_error),
            ) + 1,
            match fallback {
                Some(d) => spec_falls_back(old(self).spec_pipeline().spec_shader(), device_error)
                    && d@ == (ShaderModuleDescriptorView::Fallback {
                    label: old(self).spec_pipeline().spec_shader().spec_source().spec_name(),
                }),
                None => !spec_falls_back(old(self).spec_pipeline().spec_shader(), device_error),
            },
    {
        self.pipeline.finish_reload(gpu, device_error)
    }

    /// The image of the current frame, which the pass behind reads.
    pub fn color_texture(&self) -> (texture: &Texture)
        ensures
            *texture == self.spec_color_texture(),
    {
        &self.color_texture
    }

    /// The image of the frame before.
    pub fn previous_color_texture(&self) -> (texture: &Texture)
        ensures
            *texture == self.spec_previous_color_texture(),
    {
        &self.previous_color_texture
    }

    /// The binding set of the two images.
    pub fn texture_binding(&self) -> (binding: &Binding)
        ensures
            *binding == self.spec_texture_binding(),
    {
        &self.texture_binding
    }

    /// The spectral tables.
    pub fn lut_binding(&self) -> (tables: &SpectrumBinding)
        ensures
            *tables == self.spec_lut_binding(),
    {
        &self.lut_binding
    }

    /// The pipeline.
    pub fn pipeline(&self) -> (pipeline: &ManagedComputePipeline)
        ensures
            *pipeline == self.spec_pipeline(),
    {
        &self.pipeline
    }

    /// The index of the pass's query with the profiler.
    pub fn time_query_index(&self) -> (index: usize)
        ensures
            index == self.spec_time_query_index(),
    {
        self.time_query_index
    }
}

} // verus!
