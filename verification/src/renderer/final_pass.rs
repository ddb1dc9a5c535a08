//! The final pass: draws the image of the path tracer into the part of the
//! surface that the panels leave free.

use vstd::prelude::*;
use vstd::pervasive::unreached;
use crate::render::{
    lemma_run_push, spec_run, spec_well_formed, Command, CommandEncoder, EncoderState, GpuContext,
    LoadOp, RenderTarget,
};
use crate::render::binding::{
    bind_buffer_uniform, bind_sampler, bind_texture, spec_bind_buffer, spec_bind_sampler,
    spec_bind_texture, spec_group_of, spec_layout_of, spec_sequential, BindGroupLayout, BindGroupLayoutEntry,
    Binding,
    BindingEntry, BindingResource, BufferBindingType, SamplerBindingType,
};
use crate::render::buffer::{spec_written, Buffer, BufferOverflow, BufferUsages, BufferWrite};
use crate::render::shader::{Shader, ShaderData, ShaderError};
use crate::render::texture::{
    spec_sample_type, FilterMode, Sampler, Texture, TextureSampleType,
    TextureViewDimension,
};
use crate::render::timestamp::QueryState;
use crate::util::{lemma_last_index_of, shader_path};
use super::{RendererViewport, SurfaceState, UVec2};
use super::lookup::spec_default_view;
use super::pipelines::{
    spec_begun, spec_ended, spec_falls_back, spec_one, spec_reloaded, ManagedRenderPipeline,
    PipelineLayout, ReloadFallbacks, ReloadModules, RenderRecipe, RenderShaders,
};
use super::profiler::RenderProfiler;

verus! {

/// Where the image lies on the surface: the corners of the viewport, to be
/// taken as fractions of the size of the window.
#[derive(Debug, Clone, Copy, PartialEq, Eq, Structural)]
pub struct FinalUniform {
    pub effective_start: UVec2,
    pub effective_end: UVec2,
    pub window: UVec2,
}

impl FinalUniform {
    /// The corners of `renderer_viewport` over the size of the surface.
    pub fn from_renderer_viewport(surface_state: &SurfaceState, renderer_viewport: &RendererViewport) -> (uniform:
        Self)
        ensures
            uniform == (FinalUniform {
                effective_start: renderer_viewport.start,
                effective_end: renderer_viewport.end,
                window: UVec2 { x: surface_state.width, y: surface_state.height },
            }),
    {
        FinalUniform {
            effective_start: renderer_viewport.start,
            effective_end: renderer_viewport.end,
            window: UVec2 { x: surface_state.width, y: surface_state.height },
        }
    }
}

/// What the uniform buffer of the pass may be used for.
pub open spec fn spec_uniform_usage() -> BufferUsages {
    BufferUsages {
        uniform: true,
        storage: false,
        copy_src: false,
        copy_dst: true,
        map_read: false,
        query_resolve: false,
    }
}

/// The entries of the binding set of the input image and its sampler.
pub open spec fn spec_input_entries(input: u64, sampler: u64, sample_type: TextureSampleType) -> Seq<
    BindingEntry,
> {
    seq![
        spec_bind_texture(spec_default_view(input), sample_type, TextureViewDimension::D2),
        spec_bind_sampler(sampler, SamplerBindingType::NonFiltering),
    ]
}

/// The layout of the binding set of the input image and its sampler. A
/// layout records the types of the slots, so it is the same whatever is bound.
pub open spec fn spec_input_layout(sample_type: TextureSampleType) -> Seq<BindGroupLayoutEntry> {
    spec_layout_of(spec_input_entries(0, 0, sample_type))
}

/// The layout of the binding set of the uniform buffer.
pub open spec fn spec_uniform_layout() -> Seq<BindGroupLayoutEntry> {
    spec_layout_of(seq![spec_bind_buffer(0, BufferBindingType::Uniform)])
}

/// The input image and its sampler, in the order they are bound in.
pub open spec fn spec_input_resources(input: u64, sampler: u64) -> Seq<BindingResource> {
    seq![
        BindingResource::TextureView(spec_default_view(input)),
        BindingResource::Sampler(sampler),
    ]
}

/// What a pass that draws one quad over the surface records for a frame: the
/// start timestamp, a render pass with three binding sets that draws six
/// vertices, and the end timestamp.
pub open spec fn spec_quad_commands(
    query_set: u64,
    load: LoadOp,
    first_bind_group: u64,
    second_bind_group: u64,
    third_bind_group: u64,
    pipeline: u64,
) -> Seq<Command> {
    seq![
        Command::WriteTimestamp { query_set, index: 0 },
        Command::BeginRenderPass { target: RenderTarget::Surface, load },
        Command::SetBindGroup { index: 0, bind_group: first_bind_group },
        Command::SetBindGroup { index: 1, bind_group: second_bind_group },
        Command::SetBindGroup { index: 2, bind_group: third_bind_group },
        Command::SetPipeline { pipeline },
        Command::Draw { first_vertex: 0, vertex_count: 6, first_instance: 0, instance_count: 1 },
        Command::EndPass,
        Command::WriteTimestamp { query_set, index: 1 },
    ]
}

/// What a pass that draws a quad records is a whole recording: the
/// timestamps bracket the render pass, the pass that begins ends, and the
/// draw stands behind the pipeline.
pub proof fn lemma_quad_commands_well_formed(
    query_set: u64,
    load: LoadOp,
    first_bind_group: u64,
    second_bind_group: u64,
    third_bind_group: u64,
    pipeline: u64,
)
    ensures
        spec_well_formed(
            spec_quad_commands(
                query_set,
                load,
                first_bind_group,
                second_bind_group,
                third_bind_group,
                pipeline,
            ),
        ),
{
    let all = spec_quad_commands(
        query_set,
        load,
        first_bind_group,
        second_bind_group,
        third_bind_group,
        pipeline,
    );
    let outside = EncoderState::Outside;
    assert(spec_run(outside, all.take(0)) == Some(outside));
    assert forall|i: int| 0 <= i < all.len() implies all.take(i + 1) == #[trigger] all.take(
        i,
    ).push(all[i]) by {
        assert(all.take(i + 1) =~= all.take(i).push(all[i]));
    }
    lemma_run_push(outside, all.take(0), all[0]);
    lemma_run_push(outside, all.take(1), all[1]);
    lemma_run_push(outside, all.take(2), all[2]);
    lemma_run_push(outside, all.take(3), all[3]);
    lemma_run_push(outside, all.take(4), all[4]);
    lemma_run_push(outside, all.take(5), all[5]);
    lemma_run_push(outside, all.take(6), all[6]);
    lemma_run_push(outside, all.take(7), all[7]);
    lemma_run_push(outside, all.take(8), all[8]);
    assert(all.take(9) =~= all);
}

/// Records a quad drawn over the surface between the two timestamps of the
/// query at `time_query_index`.
pub fn record_quad(
    encoder: &mut CommandEncoder,
    profiler: &mut RenderProfiler,
    time_query_index: usize,
    load: LoadOp,
    first_bind_group: u64,
    second_bind_group: u64,
    third_bind_group: u64,
    pipeline: u64,
)
    requires
        old(profiler).wf(),
        time_query_index < old(profiler).spec_queries().len(),
        old(profiler).spec_queries()[time_query_index as int].spec_state() != QueryState::Started,
        old(encoder).spec_complete(),
    ensures
        final(encoder).spec_complete(),
        final(encoder)@ == old(encoder)@ + spec_quad_commands(
            old(profiler).spec_queries()[time_query_index as int].spec_query_set(),
            load,
            first_bind_group,
            second_bind_group,
            third_bind_group,
            pipeline,
        ),
        final(profiler).wf(),
        final(profiler).spec_names() == old(profiler).spec_names(),
        final(profiler).spec_times() == old(profiler).spec_times(),
        final(profiler).spec_sample_window() == old(profiler).spec_sample_window(),
        final(profiler).spec_queries().len() == old(profiler).spec_queries().len(),
        forall|i: int|
            0 <= i < old(profiler).spec_queries().len() && i != time_query_index
                ==> final(profiler).spec_queries()[i] == old(profiler).spec_queries()[i],
        final(profiler).spec_queries()[time_query_index as int].spec_state() == QueryState::Ended,
        final(profiler).spec_queries()[time_query_index as int].spec_query_set()
            == old(profiler).spec_queries()[time_query_index as int].spec_query_set(),
{
    profiler.write_start_timestamp(time_query_index, encoder);
    encoder.record(Command::BeginRenderPass { target: RenderTarget::Surface, load });
    encoder.record(Command::SetBindGroup { index: 0, bind_group: first_bind_group });
    encoder.record(Command::SetBindGroup { index: 1, bind_group: second_bind_group });
    encoder.record(Command::SetBindGroup { index: 2, bind_group: third_bind_group });
    encoder.record(Command::SetPipeline { pipeline });
    encoder.record(
        Command::Draw { first_vertex: 0, vertex_count: 6, first_instance: 0, instance_count: 1 },
    );
    encoder.record(Command::EndPass);
    profiler.write_end_timestamp(time_query_index, encoder);
    assert(encoder@ =~= old(encoder)@ + spec_quad_commands(
        old(profiler).spec_queries()[time_query_index as int].spec_query_set(),
        load,
        first_bind_group,
        second_bind_group,
        third_bind_group,
        pipeline,
    ));
}

/// The final pass.
#[derive(Debug)]
pub struct FinalPass {
    sampler: Sampler,
    uniform_buffer: Buffer,
    input_texture: u64,
    input_sample_type: TextureSampleType,
    texture_binding: Binding,
    uniform_binding: Binding,
    pipeline: ManagedRenderPipeline,
    time_query_index: usize,
}

impl FinalPass {
    pub closed spec fn spec_sampler(&self) -> Sampler {
        self.sampler
    }

    pub closed spec fn spec_uniform_buffer(&self) -> Buffer {
        self.uniform_buffer
    }

    /// Identity of the image that is bound as input.
    pub closed spec fn spec_input_texture(&self) -> u64 {
        self.input_texture
    }

    pub closed spec fn spec_input_sample_type(&self) -> TextureSampleType {
        self.input_sample_type
    }

    pub closed spec fn spec_texture_binding(&self) -> Binding {
        self.texture_binding
    }

    pub closed spec fn spec_uniform_binding(&self) -> Binding {
        self.uniform_binding
    }

    pub closed spec fn spec_pipeline(&self) -> ManagedRenderPipeline {
        self.pipeline
    }

    pub closed spec fn spec_time_query_index(&self) -> usize {
        self.time_query_index
    }

    /// The binding sets bind the input image with the sampler and the whole
    /// uniform buffer, in the layouts derived when the pass was made.
    pub open spec fn wf(&self) -> bool {
        &&& self.spec_texture_binding().wf()
        &&& self.spec_texture_binding().spec_bind_group_layout().entries@
            == spec_input_layout(self.spec_input_sample_type())
        &&& self.spec_texture_binding().spec_bind_group().entries@ == spec_sequential(
            spec_input_resources(self.spec_input_texture(), self.spec_sampler().id),
        )
        &&& self.spec_uniform_binding().wf()
        &&& self.spec_uniform_binding().spec_bind_group_layout().entries@ == spec_uniform_layout()
        &&& self.spec_uniform_binding().spec_bind_group().entries@ == spec_group_of(
            seq![spec_bind_buffer(self.spec_uniform_buffer().spec_id(), BufferBindingType::Uniform)],
        )
        &&& self.spec_uniform_buffer().spec_usage() == spec_uniform_usage()
        &&& self.spec_pipeline().wf()
    }

    /// The files of the two shaders of the pass: the vertex stage and the
    /// fragment stage, among the compiled shaders.
    pub fn create_shaders() -> (paths: (String, String))
        ensures
            paths.0@ == crate::util::spec_shader_dir() + crate::util::spec_with_extension(
                "frame.slang"@,
                "spv"@,
            ),
            paths.1@ == crate::util::spec_shader_dir() + crate::util::spec_with_extension(
                "final.slang"@,
                "spv"@,
            ),
    {
        proof {
            reveal_strlit("frame.slang");
            reveal_strlit("final.slang");
            lemma_last_index_of("frame.slang"@, '\\');
            lemma_last_index_of("final.slang"@, '\\');
        }
        (shader_path("frame.slang"), shader_path("final.slang"))
    }

    /// How the pipeline of the pass is made: it draws into the surface.
    pub fn create_pipeline(surface_state: &SurfaceState) -> (recipe: RenderRecipe)
        ensures
            recipe.label == "final_render_pipeline",
            recipe.vertex_entry == "vertex",
            recipe.fragment_entry == "fragment",
            recipe.target_format == surface_state.format,
    {
        RenderRecipe {
            label: "final_render_pipeline",
            vertex_entry: "vertex",
            fragment_entry: "fragment",
            target_format: surface_state.format,
        }
    }

    /// The binding set of the input image, sampled without filtering.
    pub fn create_texture_binding(
        gpu: &mut GpuContext,
        sampler: &Sampler,
        input_texture: &Texture,
    ) -> (binding: Binding)
        requires
            old(gpu).has_room(2),
        ensures
            spec_sample_type(input_texture.spec_desc().format, old(gpu).spec_float32_filterable())
                matches Some(sample_type) && {
                &&& binding.spec_bind_group_layout().entries@ == spec_input_layout(sample_type)
            },
            binding.wf(),
            binding.spec_bind_group_layout().id == old(gpu).next_id(),
            binding.spec_bind_group().id == old(gpu).next_id() + 1,
            binding.spec_bind_group().entries@ == spec_sequential(
                spec_input_resources(input_texture.spec_id(), sampler.id),
            ),
            final(gpu).next_id() == old(gpu).next_id() + 2,
            final(gpu).spec_float32_filterable() == old(gpu).spec_float32_filterable(),
    {
        let sample_type = match input_texture.desc().format.sample_type(gpu.float32_filterable()) {
            Some(sample_type) => sample_type,
            None => unreached(),
        };
        let entries: [BindingEntry; 2] = [
            bind_texture(input_texture.default_view(), sample_type, TextureViewDimension::D2),
            bind_sampler(sampler.id, SamplerBindingType::NonFiltering),
        ];
        let binding = Binding::new(gpu, entries.as_slice());
        assert(binding.spec_bind_group_layout().entries@ =~= spec_input_layout(sample_type));
        assert(binding.spec_bind_group().entries@ =~= spec_sequential(
            spec_input_resources(input_texture.spec_id(), sampler.id),
        ));
        binding
    }

    /// The pass that draws `input_texture`. `uniform_data` are the bytes of
    /// the uniform for the viewport. The pipeline layout holds, in this
    /// order, the layouts of the camera response, of the input image and of
    /// the uniform. The pass registers its timestamp query with the profiler,
    /// once.
    pub fn new(
        gpu: &mut GpuContext,
        surface_state: &SurfaceState,
        uniform_data: &[u8],
        camera_response_layout: &BindGroupLayout,
        input_texture: &Texture,
        vertex_shader: Shader,
        fragment_shader: Shader,
        profiler: &mut RenderProfiler,
    ) -> (pass: Self)
        requires
            vertex_shader.wf(),
            vertex_shader.spec_ready(),
            fragment_shader.wf(),
            fragment_shader.spec_ready(),
            old(profiler).wf(),
            old(gpu).has_room(11),
        ensures
            pass.wf(),
            pass.spec_sampler().id == old(gpu).next_id(),
            pass.spec_sampler().label@ == "final_input_texture_sampler"@,
            pass.spec_sampler().mag_filter == FilterMode::Nearest,
            pass.spec_sampler().min_filter == FilterMode::Nearest,
            pass.spec_input_texture() == input_texture.spec_id(),
            spec_sample_type(input_texture.spec_desc().format, old(gpu).spec_float32_filterable())
                == Some(pass.spec_input_sample_type()),
            pass.spec_texture_binding().spec_bind_group_layout().id == old(gpu).next_id() + 1,
            pass.spec_texture_binding().spec_bind_group().id == old(gpu).next_id() + 2,
            pass.spec_uniform_buffer().spec_id() == old(gpu).next_id() + 3,
            pass.spec_uniform_buffer().spec_label() == "final_uniform_buffer"@,
            pass.spec_uniform_buffer().contents() == uniform_data@,
            pass.spec_uniform_binding().spec_bind_group_layout().id == old(gpu).next_id() + 4,
            pass.spec_uniform_binding().spec_bind_group().id == old(gpu).next_id() + 5,
            pass.spec_pipeline().spec_layout().id == old(gpu).next_id() + 6,
            pass.spec_pipeline().spec_layout().bind_group_layouts@ == seq![
                camera_response_layout.id,
                (old(gpu).next_id() + 1) as u64,
                (old(gpu).next_id() + 4) as u64,
            ],
            pass.spec_pipeline().spec_pipeline() == old(gpu).next_id() + 7,
            pass.spec_pipeline().spec_shaders() == (RenderShaders::SeparateModules {
                vertex: vertex_shader,
                fragment: fragment_shader,
            }),
            pass.spec_pipeline().spec_recipe().target_format == surface_state.format,
            pass.spec_pipeline().spec_recipe().label == "final_render_pipeline",
            pass.spec_pipeline().spec_recipe().vertex_entry == "vertex",
            pass.spec_pipeline().spec_recipe().fragment_entry == "fragment",
            pass.spec_pipeline().spec_layout().label == "final_pipeline_layout",
            pass.spec_time_query_index() == old(profiler).spec_queries().len(),
            final(profiler).wf(),
            final(profiler).spec_queries().len() == old(profiler).spec_queries().len() + 1,
            final(profiler).spec_queries().drop_last() == old(profiler).spec_queries(),
            final(profiler).spec_names().drop_last() == old(profiler).spec_names(),
            final(profiler).spec_names().last()@ == "final"@,
            final(profiler).spec_queries().last().spec_state() == QueryState::Idle,
            final(profiler).spec_times() == old(profiler).spec_times(),
            final(profiler).spec_sample_window() == old(profiler).spec_sample_window(),
            final(gpu).next_id() == old(gpu).next_id() + 11,
            final(gpu).spec_float32_filterable() == old(gpu).spec_float32_filterable(),
    {
        let sampler = Sampler::new(
            gpu,
            "final_input_texture_sampler",
            FilterMode::Nearest,
            FilterMode::Nearest,
        );
        let input_sample_type = match input_texture.desc().format.sample_type(
            gpu.float32_filterable(),
        ) {
            Some(sample_type) => sample_type,
            None => unreached(),
        };
        let texture_binding = Self::create_texture_binding(gpu, &sampler, input_texture);
        let uniform_buffer = Buffer::with_data(
            gpu,
            "final_uniform_buffer",
            uniform_data,
            BufferUsages {
                uniform: true,
                storage: false,
                copy_src: false,
                copy_dst: true,
                map_read: false,
                query_resolve: false,
            },
        );
        let uniform_entries: [BindingEntry; 1] = [bind_buffer_uniform(uniform_buffer.id())];
        let uniform_binding = Binding::new(gpu, uniform_entries.as_slice());
        assert(uniform_binding.spec_bind_group_layout().entries@ =~= spec_uniform_layout());
        assert(uniform_binding.spec_bind_group().entries@ =~= spec_group_of(
            seq![spec_bind_buffer(uniform_buffer.spec_id(), BufferBindingType::Uniform)],
        ));
        let layouts: [&BindGroupLayout; 3] = [
            camera_response_layout,
            texture_binding.bind_group_layout(),
            uniform_binding.bind_group_layout(),
        ];
        let pipeline_layout = PipelineLayout::new(gpu, "final_pipeline_layout", layouts.as_slice());
        assert(pipeline_layout.bind_group_layouts@ =~= seq![
            camera_response_layout.id,
            (old(gpu).next_id() + 1) as u64,
            (old(gpu).next_id() + 4) as u64,
        ]);
        let pipeline = ManagedRenderPipeline::with_separate_modules(
            gpu,
            pipeline_layout,
            vertex_shader,
            fragment_shader,
            Self::create_pipeline(surface_state),
        );
        let time_query_index = profiler.push(gpu, "final");
        FinalPass {
            sampler,
            uniform_buffer,
            input_texture: input_texture.inner(),
            input_sample_type,
            texture_binding,
            uniform_binding,
            pipeline,
            time_query_index,
        }
    }

    /// Records the pass for a frame, between the two timestamps of its
    /// query: one quad over the surface, which keeps what it holds.
    pub fn draw(
        &self,
        encoder: &mut CommandEncoder,
        profiler: &mut RenderProfiler,
        camera_response_bind_group: u64,
    )
        requires
            self.wf(),
            old(profiler).wf(),
            self.spec_time_query_index() < old(profiler).spec_queries().len(),
            old(profiler).spec_queries()[self.spec_time_query_index() as int].spec_state()
                != QueryState::Started,
            old(encoder).spec_complete(),
        ensures
            final(encoder).spec_complete(),
            final(encoder)@ == old(encoder)@ + spec_quad_commands(
                old(profiler).spec_queries()[self.spec_time_query_index() as int].spec_query_set(),
                LoadOp::Load,
                camera_response_bind_group,
                self.spec_texture_binding().spec_bind_group().id,
                self.spec_uniform_binding().spec_bind_group().id,
                self.spec_pipeline().spec_pipeline(),
            ),
            final(profiler).wf(),
            final(profiler).spec_names() == old(profiler).spec_names(),
            final(profiler).spec_times() == old(profiler).spec_times(),
            final(profiler).spec_sample_window() == old(profiler).spec_sample_window(),
            final(profiler).spec_queries().len() == old(profiler).spec_queries().len(),
            forall|i: int|
                0 <= i < old(profiler).spec_queries().len() && i != self.spec_time_query_index()
                    ==> final(profiler).spec_queries()[i] == old(profiler).spec_queries()[i],
            final(profiler).spec_queries()[self.spec_time_query_index() as int].spec_state()
                == QueryState::Ended,
            final(profiler).spec_queries()[self.spec_time_query_index() as int].spec_query_set()
                == old(profiler).spec_queries()[self.spec_time_query_index() as int].spec_query_set(),
    {
        record_quad(
            encoder,
            profiler,
            self.time_query_index,
            LoadOp::Load,
            camera_response_bind_group,
            self.texture_binding.bind_group().id,
            self.uniform_binding.bind_group().id,
            self.pipeline.pipeline(),
        );
    }

    /// Writes the bytes of the uniform for the current viewport over the
    /// uniform buffer, where they fit it.
    pub fn update(&mut self, uniform_data: &[u8]) -> (write: Result<BufferWrite, BufferOverflow>)
        requires
            old(self).wf(),
        ensures
            final(self).wf(),
            final(self).spec_sampler() == old(self).spec_sampler(),
            final(self).spec_input_texture() == old(self).spec_input_texture(),
            final(self).spec_input_sample_type() == old(self).spec_input_sample_type(),
            final(self).spec_texture_binding() == old(self).spec_texture_binding(),
            final(self).spec_uniform_binding() == old(self).spec_uniform_binding(),
            final(self).spec_pipeline() == old(self).spec_pipeline(),
            final(self).spec_time_query_index() == old(self).spec_time_query_index(),
            final(self).spec_uniform_buffer().spec_id()
                == old(self).spec_uniform_buffer().spec_id(),
            uniform_data@.len() <= old(self).spec_uniform_buffer().spec_size() ==> {
                &&& write == Ok::<BufferWrite, BufferOverflow>(
                    BufferWrite {
                        buffer: old(self).spec_uniform_buffer().spec_id(),
                        offset: 0,
                        len: uniform_data@.len() as u64,
                    },
                )
                &&& final(self).spec_uniform_buffer().contents() == spec_written(
                    old(self).spec_uniform_buffer().contents(),
                    uniform_data@,
                    0,
                )
            },
            uniform_data@.len() > old(self).spec_uniform_buffer().spec_size() ==> {
                &&& write is Err
                &&& final(self).spec_uniform_buffer().contents()
                    == old(self).spec_uniform_buffer().contents()
            },
    {
        self.uniform_buffer.try_write(uniform_data, 0)
    }

    /// Takes the image of the path tracer after a resize. Where it is the
    /// image that is bound, nothing is touched. Otherwise it is bound, with
    /// the sampler, by a new bind group against the layout the pass always
    /// had; the uniform and the pipeline stay. Returns whether the image was
    /// bound anew.
    pub fn on_resize(&mut self, gpu: &mut GpuContext, input_texture: &Texture) -> (rebound: bool)
        requires
            old(self).wf(),
            old(gpu).has_room(1),
        ensures
            final(self).wf(),
            final(gpu).spec_float32_filterable() == old(gpu).spec_float32_filterable(),
            rebound == (old(self).spec_input_texture() != input_texture.spec_id()),
            !rebound ==> *final(self) == *old(self) && final(gpu).next_id() == old(gpu).next_id(),
            final(self).spec_input_texture() == input_texture.spec_id(),
            final(self).spec_input_sample_type() == old(self).spec_input_sample_type(),
            final(self).spec_sampler() == old(self).spec_sampler(),
            final(self).spec_uniform_buffer() == old(self).spec_uniform_buffer(),
            final(self).spec_uniform_binding() == old(self).spec_uniform_binding(),
            final(self).spec_pipeline() == old(self).spec_pipeline(),
            final(self).spec_time_query_index() == old(self).spec_time_query_index(),
            final(self).spec_texture_binding().spec_bind_group_layout()
                == old(self).spec_texture_binding().spec_bind_group_layout(),
            rebound ==> {
                &&& final(gpu).next_id() == old(gpu).next_id() + 1
                &&& final(self).spec_texture_binding().spec_bind_group().id == old(gpu).next_id()
            },
    {
        if self.input_texture == input_texture.inner() {
            return false;
        }
        let resources: [BindingResource; 2] = [
            BindingResource::TextureView(input_texture.default_view()),
            BindingResource::Sampler(self.sampler.id),
        ];
        assert(resources@ =~= spec_input_resources(input_texture.spec_id(), self.sampler.id));
        assert(spec_input_layout(self.input_sample_type).len() == 2);
        self.texture_binding.rebind(gpu, resources.as_slice());
        self.input_texture = input_texture.inner();
        true
    }

    /// Takes new reads of the two shader files and starts making their
    /// modules. Nothing but the shaders changes. A read that a binary shader
    /// cannot take is an error and leaves the pass as it was.
    pub fn on_shader_reload(
        &mut self,
        gpu: &mut GpuContext,
        vertex_data: Option<ShaderData>,
        fragment_data: Option<ShaderData>,
    ) -> (modules: Result<ReloadModules, ShaderError>)
        requires
            old(self).wf(),
            old(gpu).has_room(2),
        ensures
            final(self).wf(),
            final(gpu).spec_float32_filterable() == old(gpu).spec_float32_filterable(),
            final(self).spec_sampler() == old(self).spec_sampler(),
            final(self).spec_uniform_buffer() == old(self).spec_uniform_buffer(),
            final(self).spec_input_texture() == old(self).spec_input_texture(),
            final(self).spec_input_sample_type() == old(self).spec_input_sample_type(),
            final(self).spec_texture_binding() == old(self).spec_texture_binding(),
            final(self).spec_uniform_binding() == old(self).spec_uniform_binding(),
            final(self).spec_time_query_index() == old(self).spec_time_query_index(),
            final(self).spec_pipeline().spec_pipeline()
                == old(self).spec_pipeline().spec_pipeline(),
            final(self).spec_pipeline().spec_layout() == old(self).spec_pipeline().spec_layout(),
            final(self).spec_pipeline().spec_recipe() == old(self).spec_pipeline().spec_recipe(),
            final(self).spec_pipeline().spec_shaders().spec_separate()
                == old(self).spec_pipeline().spec_shaders().spec_separate(),
            match modules {
                Ok(m) => {
                    &&& old(self).spec_pipeline().spec_reload_error(vertex_data, fragment_data)
                        is None
                    &&& final(self).spec_pipeline().spec_reloading()
                    &&& m.vertex@ == spec_reloaded(
                        old(self).spec_pipeline().spec_shaders().spec_vertex(),
                        vertex_data,
                    )
                    &&& spec_begun(
                        old(self).spec_pipeline().spec_shaders().spec_vertex(),
                        final(self).spec_pipeline().spec_shaders().spec_vertex(),
                        vertex_data,
                        old(gpu).next_id() as int,
                    )
                    &&& if old(self).spec_pipeline().spec_shaders().spec_separate() {
                        &&& m.fragment matches Some(f) && f@ == spec_reloaded(
                            old(self).spec_pipeline().spec_shaders().spec_fragment(),
                            fragment_data,
                        )
                        &&& spec_begun(
                            old(self).spec_pipeline().spec_shaders().spec_fragment(),
                            final(self).spec_pipeline().spec_shaders().spec_fragment(),
                            fragment_data,
                            old(gpu).next_id() + 1,
                        )
                        &&& final(gpu).next_id() == old(gpu).next_id() + 2
                    } else {
                        m.fragment is None && final(gpu).next_id() == old(gpu).next_id() + 1
                    }
                },
                Err(e) => {
                    &&& old(self).spec_pipeline().spec_reload_error(vertex_data, fragment_data)
                        == Some(e)
                    &&& *final(self) == *old(self)
                    &&& final(gpu).next_id() == old(gpu).next_id()
                },
            },
    {
        self.pipeline.begin_reload(gpu, vertex_data, fragment_data)
    }

    /// Ends a shader reload with the device's reports: the pipeline is made
    /// anew against its unchanged layout, with the fallback as the module of
    /// each stage whose compile failed.
    pub fn finish_shader_reload(
        &mut self,
        gpu: &mut GpuContext,
        vertex_error: Option<String>,
        fragment_error: Option<String>,
    ) -> (fallbacks: ReloadFallbacks)
        requires
            old(self).wf(),
            old(self).spec_pipeline().spec_reloading(),
            old(gpu).has_room(3),
        ensures
            final(self).wf(),
            final(gpu).spec_float32_filterable() == old(gpu).spec_float32_filterable(),
            final(self).spec_sampler() == old(self).spec_sampler(),
            final(self).spec_uniform_buffer() == old(self).spec_uniform_buffer(),
            final(self).spec_input_texture() == old(self).spec_input_texture(),
            final(self).spec_input_sample_type() == old(self).spec_input_sample_type(),
            final(self).spec_texture_binding() == old(self).spec_texture_binding(),
            final(self).spec_uniform_binding() == old(self).spec_uniform_binding(),
            final(self).spec_time_query_index() == old(self).spec_time_query_index(),
            final(self).spec_pipeline().spec_layout() == old(self).spec_pipeline().spec_layout(),
            final(self).spec_pipeline().spec_recipe() == old(self).spec_pipeline().spec_recipe(),
            final(self).spec_pipeline().spec_shaders().spec_separate()
                == old(self).spec_pipeline().spec_shaders().spec_separate(),
            final(self).spec_pipeline().spec_ready(),
            spec_ended(
                old(self).spec_pipeline().spec_shaders().spec_vertex(),
                final(self).spec_pipeline().spec_shaders().spec_vertex(),
                vertex_error,
                old(gpu).next_id() as int,
            ),
            fallbacks.vertex is Some == spec_falls_back(
                old(self).spec_pipeline().spec_shaders().spec_vertex(),
                vertex_error,
            ),
            old(self).spec_pipeline().spec_shaders().spec_separate() ==> {
                &&& spec_ended(
                    old(self).spec_pipeline().spec_shaders().spec_fragment(),
                    final(self).spec_pipeline().spec_shaders().spec_fragment(),
                    fragment_error,
                    old(gpu).next_id() + spec_one(
                        spec_falls_back(
                            old(self).spec_pipeline().spec_shaders().spec_vertex(),
                            vertex_error,
                        ),
                    ),
                )
                &&& fallbacks.fragment is Some == spec_falls_back(
                    old(self).spec_pipeline().spec_shaders().spec_fragment(),
                    fragment_error,
                )
            },
            !old(self).spec_pipeline().spec_shaders().spec_separate() ==> fallbacks.fragment
                is None,
            final(self).spec_pipeline().spec_pipeline() == old(gpu).next_id() + spec_one(
                fallbacks.vertex is Some,
            ) + spec_one(fallbacks.fragment is Some),
            final(gpu).next_id() == old(gpu).next_id() + spec_one(fallbacks.vertex is Some)
                + spec_one(fallbacks.fragment is Some) + 1,
    {
        self.pipeline.finish_reload(gpu, vertex_error, fragment_error)
    }

    /// Identity of the image that the pass draws.
    pub fn input_texture(&self) -> (texture: u64)
        ensures
            texture == self.spec_input_texture(),
    {
        self.input_texture
    }

    /// The pipeline.
    pub fn pipeline(&self) -> (pipeline: &ManagedRenderPipeline)
        ensures
            *pipeline == self.spec_pipeline(),
    {
        &self.pipeline
    }

    /// The binding set of the input image.
    pub fn texture_binding(&self) -> (binding: &Binding)
        ensures
            *binding == self.spec_texture_binding(),
    {
        &self.texture_binding
    }

    /// The binding set of the uniform.
    pub fn uniform_binding(&self) -> (binding: &Binding)
        ensures
            *binding == self.spec_uniform_binding(),
    {
        &self.uniform_binding
    }

    /// The uniform buffer.
    pub fn uniform_buffer(&self) -> (buffer: &Buffer)
        ensures
            *buffer == self.spec_uniform_buffer(),
    {
        &self.uniform_buffer
    }

    /// The sampler of the input image.
    pub fn sampler(&self) -> (sampler: &Sampler)
        ensures
            *sampler == self.spec_sampler(),
    {
        &self.sampler
    }

    /// The index of the pass's query with the profiler.
    pub fn time_query_index(&self) -> (index: usize)
        ensures
            index == self.spec_time_query_index(),
    {
        self.time_query_index
    }
}

} // verus!
