//! The pass chain: the path tracer, then the final pass that draws its image.
//!
//! The chain is strictly linear. Every event goes through it in pass order,
//! since the final pass binds what the path tracer made.

use vstd::prelude::*;
use vstd::pervasive::unreached;
use crate::menu::Menu;
use crate::render::{Command, CommandEncoder, GpuContext, LoadOp};
use crate::render::shader::{
    load_error, recompile_shaders, ShaderBackend, ShaderData, ShaderError,
    ShaderModuleDescriptor, ShaderState,
};
use crate::render::timestamp::QueryState;
use super::RendererViewport;
use super::final_pass::{spec_quad_commands, FinalPass};
use super::pipelines::{
    spec_begun, spec_ended, spec_falls_back, spec_one, spec_reload_error, spec_reloaded,
    spec_report, ReloadFallbacks, ReloadModules,
};
use super::pathtrace::{
    spec_draw_commands, spec_image_extent, spec_resize_replaces, PathtracePass,
};
use super::profiler::RenderProfiler;

verus! {

/// The passes of a frame, in the order in which they run.
#[derive(Debug)]
pub struct PassChain {
    pub pathtrace: PathtracePass,
    pub final_pass: FinalPass,
}

/// What new reads of the files of the chain's shaders gave: `None` for a
/// file that could not be read.
#[derive(Debug)]
pub struct ShaderReads {
    pub pathtrace: Option<ShaderData>,
    pub vertex: Option<ShaderData>,
    /// Read only where the final pass has a fragment shader of its own.
    pub fragment: Option<ShaderData>,
}

/// What the device reported on the compile of each shader of the chain:
/// the text of the error, or `None` where the compile went through.
#[derive(Debug)]
pub struct ShaderReports {
    pub pathtrace: Option<String>,
    pub vertex: Option<String>,
    pub fragment: Option<String>,
}

/// What the device makes the modules of the chain's shaders from.
#[derive(Debug)]
pub struct ChainModules {
    pub pathtrace: ShaderModuleDescriptor,
    pub final_pass: ReloadModules,
}

/// The fallbacks that the device has to make at the end of a reload of the
/// chain's shaders.
#[derive(Debug)]
pub struct ChainFallbacks {
    pub pathtrace: Option<ShaderModuleDescriptor>,
    pub final_pass: ReloadFallbacks,
}

/// Whether a reload left everything of the two passes but their shaders and
/// the pipelines made from them as it was: images, tables, buffers, binding
/// sets, queries, and the layouts and recipes of the pipelines.
pub open spec fn spec_same_resources(before: PassChain, after: PassChain) -> bool {
    &&& after.pathtrace.spec_color_texture() == before.pathtrace.spec_color_texture()
    &&& after.pathtrace.spec_previous_color_texture()
        == before.pathtrace.spec_previous_color_texture()
    &&& after.pathtrace.spec_texture_binding() == before.pathtrace.spec_texture_binding()
    &&& after.pathtrace.spec_lut_binding() == before.pathtrace.spec_lut_binding()
    &&& after.pathtrace.spec_time_query_index() == before.pathtrace.spec_time_query_index()
    &&& after.pathtrace.spec_float32_filterable() == before.pathtrace.spec_float32_filterable()
    &&& after.pathtrace.spec_pipeline().spec_layout()
        == before.pathtrace.spec_pipeline().spec_layout()
    &&& after.pathtrace.spec_pipeline().spec_recipe()
        == before.pathtrace.spec_pipeline().spec_recipe()
    &&& after.final_pass.spec_sampler() == before.final_pass.spec_sampler()
    &&& after.final_pass.spec_uniform_buffer() == before.final_pass.spec_uniform_buffer()
    &&& after.final_pass.spec_input_texture() == before.final_pass.spec_input_texture()
    &&& after.final_pass.spec_input_sample_type() == before.final_pass.spec_input_sample_type()
    &&& after.final_pass.spec_texture_binding() == before.final_pass.spec_texture_binding()
    &&& after.final_pass.spec_uniform_binding() == before.final_pass.spec_uniform_binding()
    &&& after.final_pass.spec_time_query_index() == before.final_pass.spec_time_query_index()
    &&& after.final_pass.spec_pipeline().spec_layout()
        == before.final_pass.spec_pipeline().spec_layout()
    &&& after.final_pass.spec_pipeline().spec_recipe()
        == before.final_pass.spec_pipeline().spec_recipe()
    &&& after.final_pass.spec_pipeline().spec_shaders().spec_separate()
        == before.final_pass.spec_pipeline().spec_shaders().spec_separate()
}

/// Whether `after` is `before` with a reload of every shader begun on what
/// `reads` gave: each shader holds its new read and has a new module, made
/// in pass order from identity `first` on, and the passes still have the
/// pipelines they had.
pub open spec fn spec_reload_begun(
    before: PassChain,
    after: PassChain,
    reads: ShaderReads,
    first: int,
) -> bool {
    let shaders = before.final_pass.spec_pipeline().spec_shaders();
    &&& spec_same_resources(before, after)
    &&& after.pathtrace.spec_pipeline().spec_pipeline()
        == before.pathtrace.spec_pipeline().spec_pipeline()
    &&& after.final_pass.spec_pipeline().spec_pipeline()
        == before.final_pass.spec_pipeline().spec_pipeline()
    &&& spec_begun(
        before.pathtrace.spec_pipeline().spec_shader(),
        after.pathtrace.spec_pipeline().spec_shader(),
        reads.pathtrace,
        first,
    )
    &&& spec_begun(
        shaders.spec_vertex(),
        after.final_pass.spec_pipeline().spec_shaders().spec_vertex(),
        reads.vertex,
        first + 1,
    )
    &&& shaders.spec_separate() ==> spec_begun(
        shaders.spec_fragment(),
        after.final_pass.spec_pipeline().spec_shaders().spec_fragment(),
        reads.fragment,
        first + 2,
    )
}

/// Whether `after` is `before` with the reload of every shader ended by
/// what the device reported: each shader that waited is compiled or has
/// fallen back, and each pass has a new pipeline against its unchanged
/// layout. What is made is made in pass order from identity `first` on: the
/// fallback of a shader where it has fallen back, then the pipeline.
pub open spec fn spec_reload_ended(
    before: PassChain,
    after: PassChain,
    reports: ShaderReports,
    first: int,
) -> bool {
    let shaders = before.final_pass.spec_pipeline().spec_shaders();
    let pathtrace = spec_one(
        spec_falls_back(before.pathtrace.spec_pipeline().spec_shader(), reports.pathtrace),
    );
    let vertex = spec_one(spec_falls_back(shaders.spec_vertex(), reports.vertex));
    let fragment = spec_one(
        shaders.spec_separate() && spec_falls_back(shaders.spec_fragment(), reports.fragment),
    );
    &&& spec_same_resources(before, after)
    &&& spec_ended(
        before.pathtrace.spec_pipeline().spec_shader(),
        after.pathtrace.spec_pipeline().spec_shader(),
        reports.pathtrace,
        first,
    )
    &&& after.pathtrace.spec_pipeline().spec_pipeline() == first + pathtrace
    &&& spec_ended(
        shaders.spec_vertex(),
        after.final_pass.spec_pipeline().spec_shaders().spec_vertex(),
        reports.vertex,
        first + pathtrace + 1,
    )
    &&& shaders.spec_separate() ==> spec_ended(
        shaders.spec_fragment(),
        after.final_pass.spec_pipeline().spec_shaders().spec_fragment(),
        reports.fragment,
        first + pathtrace + 1 + vertex,
    )
    &&& after.final_pass.spec_pipeline().spec_pipeline() == first + pathtrace + 1 + vertex
        + fragment
}

/// How many resources the end of a reload makes: a pipeline for each pass,
/// and a fallback for each shader that has fallen back.
pub open spec fn spec_reload_made(before: PassChain, reports: ShaderReports) -> int {
    let shaders = before.final_pass.spec_pipeline().spec_shaders();
    2 + spec_one(
        spec_falls_back(before.pathtrace.spec_pipeline().spec_shader(), reports.pathtrace),
    ) + spec_one(spec_falls_back(shaders.spec_vertex(), reports.vertex)) + spec_one(
        shaders.spec_separate() && spec_falls_back(shaders.spec_fragment(), reports.fragment),
    )
}

impl PassChain {
    /// Both passes are well formed, and the final pass reads the image that
    /// the path tracer writes.
    pub open spec fn wf(&self) -> bool {
        &&& self.pathtrace.wf()
        &&& self.final_pass.wf()
        &&& self.final_pass.spec_input_texture()
            == self.pathtrace.spec_color_texture().spec_id()
        &&& self.pathtrace.spec_time_query_index() != self.final_pass.spec_time_query_index()
    }

    /// Whether both passes have their query with `profiler`, and neither
    /// query is started.
    pub open spec fn spec_can_draw(&self, profiler: &RenderProfiler) -> bool {
        &&& profiler.wf()
        &&& self.pathtrace.spec_time_query_index() < profiler.spec_queries().len()
        &&& self.final_pass.spec_time_query_index() < profiler.spec_queries().len()
        &&& profiler.spec_queries()[self.pathtrace.spec_time_query_index() as int].spec_state()
            != QueryState::Started
        &&& profiler.spec_queries()[self.final_pass.spec_time_query_index() as int].spec_state()
            != QueryState::Started
    }

    /// What the chain records for a frame: the path tracer, then the final pass.
    pub open spec fn spec_frame_commands(
        &self,
        profiler: &RenderProfiler,
        screen_bind_group: u64,
        object_bind_group: u64,
        camera_response_bind_group: u64,
    ) -> Seq<Command> {
        spec_draw_commands(
            profiler.spec_queries()[self.pathtrace.spec_time_query_index() as int].spec_query_set(),
            self.pathtrace.spec_color_texture().spec_id(),
            self.pathtrace.spec_previous_color_texture().spec_id(),
            self.pathtrace.spec_extent(),
            screen_bind_group,
            object_bind_group,
            self.pathtrace.spec_texture_binding().spec_bind_group().id,
            self.pathtrace.spec_lut_binding().binding.spec_bind_group().id,
            self.pathtrace.spec_pipeline().spec_pipeline(),
        ) + spec_quad_commands(
            profiler.spec_queries()[self.final_pass.spec_time_query_index() as int].spec_query_set(),
            LoadOp::Load,
            camera_response_bind_group,
            self.final_pass.spec_texture_binding().spec_bind_group().id,
            self.final_pass.spec_uniform_binding().spec_bind_group().id,
            self.final_pass.spec_pipeline().spec_pipeline(),
        )
    }

    /// Puts the two passes together.
    pub fn new(pathtrace: PathtracePass, final_pass: FinalPass) -> (chain: Self)
        requires
            pathtrace.wf(),
            final_pass.wf(),
            final_pass.spec_input_texture() == pathtrace.spec_color_texture().spec_id(),
            pathtrace.spec_time_query_index() != final_pass.spec_time_query_index(),
        ensures
            chain.wf(),
            chain.pathtrace == pathtrace,
            chain.final_pass == final_pass,
    {
        PassChain { pathtrace, final_pass }
    }

    /// Records the frame: each pass in turn, into the one encoder of the
    /// frame, each between the two timestamps of its query.
    pub fn draw(
        &self,
        encoder: &mut CommandEncoder,
        profiler: &mut RenderProfiler,
        screen_bind_group: u64,
        object_bind_group: u64,
        camera_response_bind_group: u64,
    )
        requires
            self.wf(),
            self.spec_can_draw(&*old(profiler)),
            old(encoder).spec_complete(),
        ensures
            final(encoder).spec_complete(),
            final(encoder)@ == old(encoder)@ + self.spec_frame_commands(
                &*old(profiler),
                screen_bind_group,
                object_bind_group,
                camera_response_bind_group,
            ),
            final(profiler).wf(),
            final(profiler).spec_names() == old(profiler).spec_names(),
            final(profiler).spec_times() == old(profiler).spec_times(),
            final(profiler).spec_sample_window() == old(profiler).spec_sample_window(),
            final(profiler).spec_queries().len() == old(profiler).spec_queries().len(),
            self.spec_can_draw(&*final(profiler)),
            final(profiler).spec_queries()[self.pathtrace.spec_time_query_index() as int].spec_state()
                == QueryState::Ended,
            final(profiler).spec_queries()[self.final_pass.spec_time_query_index() as int].spec_state()
                == QueryState::Ended,
            forall|i: int|
                0 <= i < old(profiler).spec_queries().len() && i
                    != self.pathtrace.spec_time_query_index() && i
                    != self.final_pass.spec_time_query_index() ==> final(profiler).spec_queries()[i]
                    == old(profiler).spec_queries()[i],
    {
        self.pathtrace.draw(encoder, profiler, screen_bind_group, object_bind_group);
        self.final_pass.draw(encoder, profiler, camera_response_bind_group);
        assert(encoder@ =~= old(encoder)@ + self.spec_frame_commands(
            &*old(profiler),
            screen_bind_group,
            object_bind_group,
            camera_response_bind_group,
        ));
    }

    /// Why the shaders of the chain cannot take what reads of their files
    /// gave: the error of the first shader, in pass order, that cannot.
    pub open spec fn spec_reload_error(&self, reads: ShaderReads) -> Option<ShaderError> {
        match spec_reload_error(self.pathtrace.spec_pipeline().spec_shader(), reads.pathtrace) {
            Some(error) => Some(error),
            None => self.final_pass.spec_pipeline().spec_reload_error(reads.vertex, reads.fragment),
        }
    }

    /// Whether every shader of the chain has a module that pipelines can be
    /// built with.
    pub open spec fn spec_shaders_ready(&self) -> bool {
        self.pathtrace.spec_pipeline().spec_shader().spec_ready()
            && self.final_pass.spec_pipeline().spec_ready()
    }

    /// Whether every shader of the chain has a module or waits for the
    /// device to report on one.
    pub open spec fn spec_reloading(&self) -> bool {
        &&& self.pathtrace.spec_pipeline().spec_shader().spec_state() == ShaderState::Compiling
            || self.pathtrace.spec_pipeline().spec_shader().spec_ready()
        &&& self.final_pass.spec_pipeline().spec_reloading()
    }

    /// The compile error that is there for display: that of the first
    /// shader, in pass order, whose last compile ended with one.
    pub open spec fn spec_shown_error(&self) -> Option<Seq<char>> {
        match self.pathtrace.spec_pipeline().spec_shader().spec_error() {
            Some(text) => Some(text),
            None => match self.final_pass.spec_pipeline().spec_shaders().spec_vertex().spec_error() {
                Some(text) => Some(text),
                None => self.final_pass.spec_pipeline().spec_shaders().spec_fragment().spec_error(),
            },
        }
    }

    /// Answers the recompile events of a frame. Where none was raised,
    /// nothing is touched. Where one was, every shader of the chain takes
    /// the new read of its file and a compile of it is begun, in pass
    /// order; the passes go on with the pipelines they have. A read that a
    /// binary shader cannot take is an error and leaves the whole chain as
    /// it was.
    pub fn on_shader_reload(
        &mut self,
        gpu: &mut GpuContext,
        recompile_events: usize,
        reads: ShaderReads,
    ) -> (modules: Result<Option<ChainModules>, ShaderError>)
        requires
            old(self).wf(),
            old(gpu).has_room(3),
        ensures
            final(self).wf(),
            final(gpu).spec_float32_filterable() == old(gpu).spec_float32_filterable(),
            recompile_events == 0 ==> {
                &&& modules matches Ok(None)
                &&& *final(self) == *old(self)
                &&& final(gpu).next_id() == old(gpu).next_id()
            },
            recompile_events > 0 ==> match modules {
                Ok(Some(m)) => {
                    &&& old(self).spec_reload_error(reads) is None
                    &&& spec_reload_begun(*old(self), *final(self), reads, old(gpu).next_id() as int)
                    &&& final(self).spec_reloading()
                    &&& m.pathtrace@ == spec_reloaded(
                        old(self).pathtrace.spec_pipeline().spec_shader(),
                        reads.pathtrace,
                    )
                    &&& m.final_pass.vertex@ == spec_reloaded(
                        old(self).final_pass.spec_pipeline().spec_shaders().spec_vertex(),
                        reads.vertex,
                    )
                    &&& if old(self).final_pass.spec_pipeline().spec_shaders().spec_separate() {
                        &&& m.final_pass.fragment matches Some(f) && f@ == spec_reloaded(
                            old(self).final_pass.spec_pipeline().spec_shaders().spec_fragment(),
                            reads.fragment,
                        )
                        &&& final(gpu).next_id() == old(gpu).next_id() + 3
                    } else {
                        m.final_pass.fragment is None && final(gpu).next_id() == old(gpu).next_id()
                            + 2
                    }
                },
                Ok(None) => false,
                Err(error) => {
                    &&& old(self).spec_reload_error(reads) == Some(error)
                    &&& *final(self) == *old(self)
                    &&& final(gpu).next_id() == old(gpu).next_id()
                },
            },
    {
        if !recompile_shaders(recompile_events) {
            return Ok(None);
        }
        let ShaderReads { pathtrace: pathtrace_data, vertex: vertex_data, fragment: fragment_data } =
            reads;
        match load_error(self.pathtrace.pipeline().shader().source().backend(), &pathtrace_data) {
            Some(error) => {
                return Err(error);
            },
            None => {},
        }
        match self.final_pass.pipeline().reload_error(&vertex_data, &fragment_data) {
            Some(error) => {
                return Err(error);
            },
            None => {},
        }
        let pathtrace = match self.pathtrace.on_shader_reload(gpu, pathtrace_data) {
            Ok(desc) => desc,
            Err(_) => unreached(),
        };
        let final_pass = match self.final_pass.on_shader_reload(gpu, vertex_data, fragment_data) {
            Ok(modules) => modules,
            Err(_) => unreached(),
        };
        Ok(Some(ChainModules { pathtrace, final_pass }))
    }

    /// Ends a reload with what the device reported on each compile. Every
    /// shader then has a module: its own where the compile went through,
    /// the fallback where it failed. Each pass gets a new pipeline against
    /// its unchanged layout, so that the chain can be drawn as before. The
    /// menu takes the error that is there for display, or is cleared where
    /// every compile went through.
    pub fn finish_shader_reload(
        &mut self,
        gpu: &mut GpuContext,
        menu: &mut Menu,
        reports: ShaderReports,
    ) -> (fallbacks: ChainFallbacks)
        requires
            old(self).wf(),
            old(self).spec_reloading(),
            old(gpu).has_room(5),
        ensures
            final(self).wf(),
            final(self).spec_shaders_ready(),
            final(gpu).spec_float32_filterable() == old(gpu).spec_float32_filterable(),
            spec_reload_ended(*old(self), *final(self), reports, old(gpu).next_id() as int),
            final(gpu).next_id() == old(gpu).next_id() + spec_reload_made(*old(self), reports),
            fallbacks.pathtrace is Some == spec_falls_back(
                old(self).pathtrace.spec_pipeline().spec_shader(),
                reports.pathtrace,
            ),
            fallbacks.final_pass.vertex is Some == spec_falls_back(
                old(self).final_pass.spec_pipeline().spec_shaders().spec_vertex(),
                reports.vertex,
            ),
            fallbacks.final_pass.fragment is Some == {
                &&& old(self).final_pass.spec_pipeline().spec_shaders().spec_separate()
                &&& spec_falls_back(
                    old(self).final_pass.spec_pipeline().spec_shaders().spec_fragment(),
                    reports.fragment,
                )
            },
            final(menu).settings == old(menu).settings,
            spec_report(final(menu).shader_compile_error) == final(self).spec_shown_error(),
    {
        let ShaderReports { pathtrace: pathtrace_error, vertex: vertex_error, fragment: fragment_error } =
            reports;
        let pathtrace = self.pathtrace.finish_shader_reload(gpu, pathtrace_error);
        let final_pass = self.final_pass.finish_shader_reload(gpu, vertex_error, fragment_error);
        let shown: Option<&String> = match self.pathtrace.pipeline().shader().error() {
            Some(text) => Some(text),
            None => self.final_pass.pipeline().error(),
        };
        menu.show_shader_error(shown);
        ChainFallbacks { pathtrace, final_pass }
    }

    /// Takes the viewport after a resize, the path tracer first. Where the
    /// viewport has the size of the images, nothing at all is touched: no
    /// resource is made, every identity stays. Otherwise every image of the
    /// size of the viewport is replaced by a new one of the same format and
    /// usage, and every bind group that refers to one is made anew; layouts
    /// and pipelines stay. Returns whether the images were replaced.
    pub fn on_resize(&mut self, gpu: &mut GpuContext, renderer_viewport: &RendererViewport) -> (replaced:
        bool)
        requires
            old(self).wf(),
            renderer_viewport.wf(),
            old(gpu).has_room(4),
            old(gpu).issued(old(self).pathtrace.spec_color_texture().spec_id()),
        ensures
            final(self).wf(),
            final(gpu).issued(final(self).pathtrace.spec_color_texture().spec_id()),
            final(gpu).spec_float32_filterable() == old(gpu).spec_float32_filterable(),
            replaced == spec_resize_replaces(old(self).pathtrace.spec_extent(), *renderer_viewport),
            !replaced ==> *final(self) == *old(self) && final(gpu).next_id() == old(gpu).next_id(),
            final(self).pathtrace.spec_extent() == spec_image_extent(*renderer_viewport),
            final(self).pathtrace.spec_pipeline() == old(self).pathtrace.spec_pipeline(),
            final(self).final_pass.spec_pipeline() == old(self).final_pass.spec_pipeline(),
            final(self).pathtrace.spec_lut_binding() == old(self).pathtrace.spec_lut_binding(),
            final(self).final_pass.spec_uniform_binding()
                == old(self).final_pass.spec_uniform_binding(),
            final(self).final_pass.spec_uniform_buffer()
                == old(self).final_pass.spec_uniform_buffer(),
            final(self).final_pass.spec_sampler() == old(self).final_pass.spec_sampler(),
            final(self).pathtrace.spec_texture_binding().spec_bind_group_layout()
                == old(self).pathtrace.spec_texture_binding().spec_bind_group_layout(),
            final(self).final_pass.spec_texture_binding().spec_bind_group_layout()
                == old(self).final_pass.spec_texture_binding().spec_bind_group_layout(),
            final(self).pathtrace.spec_time_query_index()
                == old(self).pathtrace.spec_time_query_index(),
            final(self).final_pass.spec_time_query_index()
                == old(self).final_pass.spec_time_query_index(),
            replaced ==> {
                &&& final(gpu).next_id() == old(gpu).next_id() + 4
                &&& final(self).pathtrace.spec_color_texture().spec_id() == old(gpu).next_id()
                &&& final(self).pathtrace.spec_previous_color_texture().spec_id()
                    == old(gpu).next_id() + 1
                &&& final(self).pathtrace.spec_texture_binding().spec_bind_group().id
                    == old(gpu).next_id() + 2
                &&& final(self).final_pass.spec_texture_binding().spec_bind_group().id
                    == old(gpu).next_id() + 3
                &&& final(self).pathtrace.spec_color_texture().spec_desc().format
                    == old(self).pathtrace.spec_color_texture().spec_desc().format
                &&& final(self).pathtrace.spec_color_texture().spec_desc().usage
                    == old(self).pathtrace.spec_color_texture().spec_desc().usage
                &&& final(self).pathtrace.spec_previous_color_texture().spec_desc().format
                    == old(self).pathtrace.spec_previous_color_texture().spec_desc().format
                &&& final(self).pathtrace.spec_previous_color_texture().spec_desc().usage
                    == old(self).pathtrace.spec_previous_color_texture().spec_desc().usage
            },
    {
        let replaced = self.pathtrace.on_resize(gpu, renderer_viewport);
        if replaced {
            let rebound = self.final_pass.on_resize(gpu, self.pathtrace.color_texture());
            assert(rebound);
        }
        replaced
    }
}

/// The error that a reload ended by `reports` leaves for display: the
/// report on the first shader, in pass order, whose compile failed.
pub open spec fn spec_first_failure(begun: PassChain, reports: ShaderReports) -> Option<Seq<char>> {
    let shaders = begun.final_pass.spec_pipeline().spec_shaders();
    if spec_falls_back(begun.pathtrace.spec_pipeline().spec_shader(), reports.pathtrace) {
        spec_report(reports.pathtrace)
    } else if spec_falls_back(shaders.spec_vertex(), reports.vertex) {
        spec_report(reports.vertex)
    } else if shaders.spec_separate() && spec_falls_back(shaders.spec_fragment(), reports.fragment) {
        spec_report(reports.fragment)
    } else {
        None
    }
}

/// A recompile of the shaders of a chain, whatever was read and whatever
/// the device reports: the chain stays well formed and every shader ends
/// with a module, so that each later frame can be recorded wherever a frame
/// could be recorded before; the layouts of the pipelines are the ones they
/// had; each shader whose compile failed has fallen back; and the error
/// that is there for display is the report on the first compile, in pass
/// order, that failed, and none where every compile went through.
pub proof fn lemma_reload_ends_ready(
    valid: PassChain,
    begun: PassChain,
    ended: PassChain,
    reads: ShaderReads,
    reports: ShaderReports,
    first: int,
    second: int,
)
    requires
        valid.wf(),
        valid.spec_reload_error(reads) is None,
        spec_reload_begun(valid, begun, reads, first),
        spec_reload_ended(begun, ended, reports, second),
    ensures
        begun.wf(),
        begun.spec_reloading(),
        ended.wf(),
        ended.spec_shaders_ready(),
        forall|profiler: &RenderProfiler|
            valid.spec_can_draw(profiler) ==> #[trigger] ended.spec_can_draw(profiler),
        ended.pathtrace.spec_pipeline().spec_layout()
            == valid.pathtrace.spec_pipeline().spec_layout(),
        ended.final_pass.spec_pipeline().spec_layout()
            == valid.final_pass.spec_pipeline().spec_layout(),
        ended.spec_shown_error() == spec_first_failure(begun, reports),
        spec_falls_back(begun.pathtrace.spec_pipeline().spec_shader(), reports.pathtrace) ==> {
            &&& ended.pathtrace.spec_pipeline().spec_shader().spec_state() == ShaderState::Fallback
            &&& ended.pathtrace.spec_pipeline().spec_shader().spec_source().spec_is_fallback()
        },
        spec_falls_back(
            begun.final_pass.spec_pipeline().spec_shaders().spec_vertex(),
            reports.vertex,
        ) ==> {
            &&& ended.final_pass.spec_pipeline().spec_shaders().spec_vertex().spec_state()
                == ShaderState::Fallback
            &&& ended.final_pass.spec_pipeline().spec_shaders().spec_vertex().spec_source().spec_is_fallback()
        },
        spec_falls_back(
            begun.final_pass.spec_pipeline().spec_shaders().spec_fragment(),
            if begun.final_pass.spec_pipeline().spec_shaders().spec_separate() {
                reports.fragment
            } else {
                reports.vertex
            },
        ) ==> {
            &&& ended.final_pass.spec_pipeline().spec_shaders().spec_fragment().spec_state()
                == ShaderState::Fallback
            &&& ended.final_pass.spec_pipeline().spec_shaders().spec_fragment().spec_source().spec_is_fallback()
        },
{
}

/// A recompile of a chain whose shaders are valid, answered by the device
/// with an error for the new text of the path tracer, leaves a chain that
/// goes on drawing: it is well formed with every shader ready, so that each
/// later frame can be recorded with it wherever a frame could be recorded
/// before; the path tracer's shader has fallen back, and its pipeline is
/// made anew from the fallback module against the layout that it had; and
/// the text of the error is there for display.
pub proof fn lemma_broken_reload_keeps_drawing(
    valid: PassChain,
    begun: PassChain,
    ended: PassChain,
    reads: ShaderReads,
    reports: ShaderReports,
    first: int,
    second: int,
)
    requires
        valid.wf(),
        valid.spec_shaders_ready(),
        valid.pathtrace.spec_pipeline().spec_shader().spec_source().spec_backend()
            == ShaderBackend::Wgsl,
        valid.spec_reload_error(reads) is None,
        spec_reload_begun(valid, begun, reads, first),
        spec_reload_ended(begun, ended, reports, second),
        reports.pathtrace is Some,
    ensures
        ended.wf(),
        ended.spec_shaders_ready(),
        forall|profiler: &RenderProfiler|
            valid.spec_can_draw(profiler) ==> #[trigger] ended.spec_can_draw(profiler),
        ended.pathtrace.spec_pipeline().spec_shader().spec_state() == ShaderState::Fallback,
        ended.pathtrace.spec_pipeline().spec_shader().spec_source().spec_is_fallback(),
        ended.pathtrace.spec_pipeline().spec_shader().spec_module() == second,
        ended.pathtrace.spec_pipeline().spec_pipeline() == second + 1,
        ended.pathtrace.spec_pipeline().spec_layout()
            == valid.pathtrace.spec_pipeline().spec_layout(),
        ended.pathtrace.spec_pipeline().spec_descriptor()
            == valid.pathtrace.spec_pipeline().spec_recipe().spec_build(
            valid.pathtrace.spec_pipeline().spec_layout().id,
            ended.pathtrace.spec_pipeline().spec_shader().spec_module(),
        ),
        ended.final_pass.spec_pipeline().spec_layout()
            == valid.final_pass.spec_pipeline().spec_layout(),
        ended.spec_shown_error() == spec_report(reports.pathtrace),
        ended.spec_shown_error() is Some,
{
}

} // verus!
