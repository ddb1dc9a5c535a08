//! The display pass: draws an image over the whole surface, by the pipeline
//! that is chosen by name.

use vstd::prelude::*;
use vstd::pervasive::unreached;
use crate::render::{CommandEncoder, GpuContext, LoadOp};
use crate::render::binding::{
    bind_buffer_uniform, bind_sampler, bind_texture, spec_bind_buffer, spec_bind_sampler,
    spec_bind_texture, spec_layout_of, spec_sequential, Binding, BindingEntry, BindingResource,
    BufferBindingType, SamplerBindingType,
};
use crate::render::buffer::{Buffer, BufferUsages, BufferWrite};
use crate::render::texture::{
    spec_sample_type, FilterMode, Sampler, Texture, TextureSampleType, TextureViewDimension,
};
use crate::render::timestamp::QueryState;
use super::{spec_viewport_bytes, RendererViewport, SurfaceState};
use super::final_pass::{record_quad, spec_quad_commands, spec_uniform_usage};
use super::lookup::spec_default_view;
use super::pipelines::{
    ManagedRenderPipeline, PipelineLayout, PipelineSet, RenderRecipe, RenderShaders,
};
use crate::render::binding::{BindGroupLayout, BindGroupLayoutEntry};
use crate::render::shader::Shader;
use super::profiler::RenderProfiler;

verus! {

/// The entries of the binding set of the display pass.
pub open spec fn spec_display_entries(
    input: u64,
    sampler: u64,
    buffer: u64,
    sample_type: TextureSampleType,
) -> Seq<BindingEntry> {
    seq![
        spec_bind_texture(spec_default_view(input), sample_type, TextureViewDimension::D2),
        spec_bind_sampler(sampler, SamplerBindingType::NonFiltering),
        spec_bind_buffer(buffer, BufferBindingType::Uniform),
    ]
}

/// The layout of the binding set of the display pass. A layout records the
/// types of the slots, so it is the same whatever is bound.
pub open spec fn spec_display_layout(sample_type: TextureSampleType) -> Seq<BindGroupLayoutEntry> {
    spec_layout_of(spec_display_entries(0, 0, 0, sample_type))
}

/// The input image, its sampler and the viewport buffer, in the order they
/// are bound in.
pub open spec fn spec_display_resources(input: u64, sampler: u64, buffer: u64) -> Seq<
    BindingResource,
> {
    seq![
        BindingResource::TextureView(spec_default_view(input)),
        BindingResource::Sampler(sampler),
        BindingResource::Buffer { buffer, offset: 0, size: None },
    ]
}

/// What the display pass reads: the image, sampled without filtering, and
/// the viewport.
#[derive(Debug)]
pub struct DisplayBinding {
    sampler: Sampler,
    viewport_buffer: Buffer,
    input_texture: u64,
    input_sample_type: TextureSampleType,
    binding: Binding,
}

/// What a resize did to the display binding: the write of the viewport
/// that the device has to receive, and whether the image was bound anew.
#[derive(Debug, Clone, Copy, PartialEq, Eq, Structural)]
pub struct DisplayResize {
    pub rebound: bool,
    pub write: BufferWrite,
}

impl DisplayBinding {
    pub closed spec fn spec_sampler(&self) -> Sampler {
        self.sampler
    }

    pub closed spec fn spec_viewport_buffer(&self) -> Buffer {
        self.viewport_buffer
    }

    /// Identity of the image that is bound as input.
    pub closed spec fn spec_input_texture(&self) -> u64 {
        self.input_texture
    }

    pub closed spec fn spec_input_sample_type(&self) -> TextureSampleType {
        self.input_sample_type
    }

    pub closed spec fn spec_binding(&self) -> Binding {
        self.binding
    }

    /// The binding set binds the input image, the sampler and the viewport
    /// buffer, which holds a viewport.
    pub open spec fn wf(&self) -> bool {
        &&& self.spec_binding().wf()
        &&& self.spec_binding().spec_bind_group_layout().entries@
            == spec_display_layout(self.spec_input_sample_type())
        &&& self.spec_binding().spec_bind_group().entries@ == spec_sequential(
            spec_display_resources(
                self.spec_input_texture(),
                self.spec_sampler().id,
                self.spec_viewport_buffer().spec_id(),
            ),
        )
        &&& self.spec_viewport_buffer().spec_size() == 16
        &&& self.spec_viewport_buffer().spec_usage() == spec_uniform_usage()
    }

    /// The binding set for `input_texture` and `renderer_viewport`.
    pub fn init(gpu: &mut GpuContext, renderer_viewport: &RendererViewport, input_texture: &Texture) -> (display:
        Self)
        requires
            old(gpu).has_room(4),
        ensures
            display.wf(),
            display.spec_sampler().id == old(gpu).next_id(),
            display.spec_sampler().label@ == "display_input_sampler"@,
            display.spec_sampler().mag_filter == FilterMode::Nearest,
            display.spec_sampler().min_filter == FilterMode::Nearest,
            display.spec_viewport_buffer().spec_id() == old(gpu).next_id() + 1,
            display.spec_viewport_buffer().spec_label() == "display_viewport_buffer"@,
            display.spec_viewport_buffer().contents() == spec_viewport_bytes(*renderer_viewport),
            display.spec_input_texture() == input_texture.spec_id(),
            spec_sample_type(input_texture.spec_desc().format, old(gpu).spec_float32_filterable())
                == Some(display.spec_input_sample_type()),
            display.spec_binding().spec_bind_group_layout().id == old(gpu).next_id() + 2,
            display.spec_binding().spec_bind_group().id == old(gpu).next_id() + 3,
            final(gpu).next_id() == old(gpu).next_id() + 4,
            final(gpu).spec_float32_filterable() == old(gpu).spec_float32_filterable(),
    {
        let input_sample_type = match input_texture.desc().format.sample_type(
            gpu.float32_filterable(),
        ) {
            Some(sample_type) => sample_type,
            None => unreached(),
        };
        let sampler = Sampler::new(
            gpu,
            "display_input_sampler",
            FilterMode::Nearest,
            FilterMode::Nearest,
        );
        let bytes = renderer_viewport.as_std430();
        let viewport_buffer = Buffer::with_data(
            gpu,
            "display_viewport_buffer",
            bytes.as_slice(),
            BufferUsages {
                uniform: true,
                storage: false,
                copy_src: false,
                copy_dst: true,
                map_read: false,
                query_resolve: false,
            },
        );
        let entries: [BindingEntry; 3] = [
            bind_texture(input_texture.default_view(), input_sample_type, TextureViewDimension::D2),
            bind_sampler(sampler.id, SamplerBindingType::NonFiltering),
            bind_buffer_uniform(viewport_buffer.id()),
        ];
        let binding = Binding::new(gpu, entries.as_slice());
        assert(binding.spec_bind_group_layout().entries@ =~= spec_display_layout(input_sample_type));
        assert(binding.spec_bind_group().entries@ =~= spec_sequential(
            spec_display_resources(
                input_texture.spec_id(),
                sampler.id,
                viewport_buffer.spec_id(),
            ),
        ));
        DisplayBinding {
            sampler,
            viewport_buffer,
            input_texture: input_texture.inner(),
            input_sample_type,
            binding,
        }
    }

    /// Takes the viewport and the input image after a resize. The viewport
    /// is written over the buffer in place. The image is bound by a new bind
    /// group, against the unchanged layout, only if it is another image than
    /// the one bound. Returns the write that the device has to receive and
    /// whether the image was bound anew.
    pub fn on_resize(
        &mut self,
        gpu: &mut GpuContext,
        renderer_viewport: &RendererViewport,
        input_texture: &Texture,
    ) -> (resize: DisplayResize)
        requires
            old(self).wf(),
            old(gpu).has_room(1),
        ensures
            final(self).wf(),
            final(gpu).spec_float32_filterable() == old(gpu).spec_float32_filterable(),
            resize.rebound == (old(self).spec_input_texture() != input_texture.spec_id()),
            resize.write == (BufferWrite {
                buffer: old(self).spec_viewport_buffer().spec_id(),
                offset: 0,
                len: spec_viewport_bytes(*renderer_viewport).len() as u64,
            }),
            final(self).spec_input_texture() == input_texture.spec_id(),
            final(self).spec_input_sample_type() == old(self).spec_input_sample_type(),
            final(self).spec_sampler() == old(self).spec_sampler(),
            final(self).spec_viewport_buffer().spec_id()
                == old(self).spec_viewport_buffer().spec_id(),
            final(self).spec_viewport_buffer().contents()
                == spec_viewport_bytes(*renderer_viewport),
            final(self).spec_binding().spec_bind_group_layout()
                == old(self).spec_binding().spec_bind_group_layout(),
            !resize.rebound
                ==> final(self).spec_binding() == old(self).spec_binding()
                    && final(gpu).next_id() == old(gpu).next_id(),
            resize.rebound ==> final(self).spec_binding().spec_bind_group().id == old(
                gpu,
            ).next_id() && final(gpu).next_id() == old(gpu).next_id() + 1,
    {
        let bytes = renderer_viewport.as_std430();
        let write = self.viewport_buffer.write(bytes.as_slice(), 0);
        assert(self.viewport_buffer.contents() =~= spec_viewport_bytes(*renderer_viewport));
        if self.input_texture == input_texture.inner() {
            return DisplayResize { rebound: false, write };
        }
        let resources: [BindingResource; 3] = [
            BindingResource::TextureView(input_texture.default_view()),
            BindingResource::Sampler(self.sampler.id),
            self.viewport_buffer.as_entire_binding(),
        ];
        assert(resources@ =~= spec_display_resources(
            input_texture.spec_id(),
            self.sampler.id,
            self.viewport_buffer.spec_id(),
        ));
        assert(spec_display_layout(self.input_sample_type).len() == 3);
        self.binding.rebind(gpu, resources.as_slice());
        self.input_texture = input_texture.inner();
        DisplayResize { rebound: true, write }
    }

    /// The binding set.
    pub fn binding(&self) -> (binding: &Binding)
        ensures
            *binding == self.spec_binding(),
    {
        &self.binding
    }

    /// The buffer that holds the viewport.
    pub fn viewport_buffer(&self) -> (buffer: &Buffer)
        ensures
            *buffer == self.spec_viewport_buffer(),
    {
        &self.viewport_buffer
    }

    /// The sampler of the input image.
    pub fn sampler(&self) -> (sampler: &Sampler)
        ensures
            *sampler == self.spec_sampler(),
    {
        &self.sampler
    }
}

/// The pipelines of the display pass by name, one of which is active.
pub type DisplayPipelines = PipelineSet<ManagedRenderPipeline>;

/// The color that the display pass clears the surface to: red.
pub open spec fn spec_clear_color() -> LoadOp {
    LoadOp::Clear { red: 1000, green: 0, blue: 0, alpha: 1000 }
}

/// Records the display pass for a frame: one quad over the cleared surface,
/// with the binding sets of the screen, of the camera response and of the
/// display, between the two timestamps of the query at `time_query_index`.
pub fn draw(
    encoder: &mut CommandEncoder,
    profiler: &mut RenderProfiler,
    time_query_index: usize,
    screen_bind_group: u64,
    camera_response_bind_group: u64,
    display_binding: &DisplayBinding,
    pipeline: &ManagedRenderPipeline,
)
    requires
        old(profiler).wf(),
        time_query_index < old(profiler).spec_queries().len(),
        old(profiler).spec_queries()[time_query_index as int].spec_state() != QueryState::Started,
        old(encoder).spec_complete(),
    ensures
        final(encoder).spec_complete(),
        final(encoder)@ == old(encoder)@ + spec_quad_commands(
            old(profiler).spec_queries()[time_query_index as int].spec_query_set(),
            spec_clear_color(),
            screen_bind_group,
            camera_response_bind_group,
            display_binding.spec_binding().spec_bind_group().id,
            pipeline.spec_pipeline(),
        ),
        final(profiler).wf(),
        final(profiler).spec_names() == old(profiler).spec_names(),
        final(profiler).spec_times() == old(profiler).spec_times(),
        final(profiler).spec_sample_window() == old(profiler).spec_sample_window(),
        final(profiler).spec_queries().len() == old(profiler).spec_queries().len(),
        forall|i: int|
            0 <= i < old(profiler).spec_queries().len() && i != time_query_index
                ==> final(profiler).spec_queries()[i] == old(profiler).spec_queries()[i],
        final(profiler).spec_queries()[time_query_index as int].spec_state() == QueryState::Ended,
{
    record_quad(
        encoder,
        profiler,
        time_query_index,
        LoadOp::Clear { red: 1000, green: 0, blue: 0, alpha: 1000 },
        screen_bind_group,
        camera_response_bind_group,
        display_binding.binding().bind_group().id,
        pipeline.pipeline(),
    );
}


/// The shader that names the pipeline of the display pass.
pub const DISPLAY_PIPELINE: &'static str = "final.slang";

/// The pipelines of the display pass: one, named after its fragment shader
/// and active. Its layout holds, in this order, the layouts of the screen,
/// of the camera response and of the display; it draws into the surface.
pub fn init_pipelines(
    gpu: &mut GpuContext,
    surface_state: &SurfaceState,
    screen_layout: &BindGroupLayout,
    camera_response_layout: &BindGroupLayout,
    display_binding: &DisplayBinding,
    vertex_shader: Shader,
    fragment_shader: Shader,
) -> (pipelines: DisplayPipelines)
    requires
        vertex_shader.wf(),
        vertex_shader.spec_ready(),
        fragment_shader.wf(),
        fragment_shader.spec_ready(),
        old(gpu).has_room(2),
    ensures
        pipelines.wf(),
        pipelines.spec_active() == DISPLAY_PIPELINE@,
        pipelines.spec_names().len() == 1,
        pipelines.spec_names()[0]@ == DISPLAY_PIPELINE@,
        pipelines.spec_pipelines().len() == 1,
        pipelines.spec_pipelines()[0].wf(),
        pipelines.spec_pipelines()[0].spec_layout().id == old(gpu).next_id(),
        pipelines.spec_pipelines()[0].spec_layout().label == "display_pipeline_layout",
        pipelines.spec_pipelines()[0].spec_layout().bind_group_layouts@ == seq![
            screen_layout.id,
            camera_response_layout.id,
            display_binding.spec_binding().spec_bind_group_layout().id,
        ],
        pipelines.spec_pipelines()[0].spec_pipeline() == old(gpu).next_id() + 1,
        pipelines.spec_pipelines()[0].spec_shaders() == (RenderShaders::SeparateModules {
            vertex: vertex_shader,
            fragment: fragment_shader,
        }),
        pipelines.spec_pipelines()[0].spec_recipe().label == DISPLAY_PIPELINE,
        pipelines.spec_pipelines()[0].spec_recipe().vertex_entry == "vertex",
        pipelines.spec_pipelines()[0].spec_recipe().fragment_entry == "fragment",
        pipelines.spec_pipelines()[0].spec_recipe().target_format == surface_state.format,
        final(gpu).next_id() == old(gpu).next_id() + 2,
        final(gpu).spec_float32_filterable() == old(gpu).spec_float32_filterable(),
{
    let layouts: [&BindGroupLayout; 3] = [
        screen_layout,
        camera_response_layout,
        display_binding.binding().bind_group_layout(),
    ];
    let layout = PipelineLayout::new(gpu, "display_pipeline_layout", layouts.as_slice());
    assert(layout.bind_group_layouts@ =~= seq![
        screen_layout.id,
        camera_response_layout.id,
        display_binding.spec_binding().spec_bind_group_layout().id,
    ]);
    let pipeline = ManagedRenderPipeline::with_separate_modules(
        gpu,
        layout,
        vertex_shader,
        fragment_shader,
        RenderRecipe {
            label: DISPLAY_PIPELINE,
            vertex_entry: "vertex",
            fragment_entry: "fragment",
            target_format: surface_state.format,
        },
    );
    DisplayPipelines::init(DISPLAY_PIPELINE, pipeline)
}

} // verus!
