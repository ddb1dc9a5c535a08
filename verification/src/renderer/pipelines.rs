//! Pipelines that can be rebuilt in place when their shaders are reloaded.
//!
//! A pipeline is a layout, one or two shader modules and fixed state. The
//! layout is made once, from the final shape of the binding sets; a reload
//! replaces the modules and the pipeline and leaves the layout alone.

use vstd::prelude::*;
use vstd::string::StringExecFns;
use crate::util::{lemma_position_of, position_of, spec_position_of};
use crate::render::GpuContext;
use crate::render::binding::BindGroupLayout;
use vstd::pervasive::unreached;
use crate::render::shader::{
    load_error, spec_descriptor, spec_load_error, spec_loaded, Shader, ShaderBackend, ShaderData,
    ShaderError, ShaderModuleDescriptor, ShaderModuleDescriptorView, ShaderState,
};
use crate::render::texture::TextureFormat;

verus! {

/// The layouts of the binding sets of a pipeline, in the order of their slots.
#[derive(Debug)]
pub struct PipelineLayout {
    pub id: u64,
    pub label: &'static str,
    pub bind_group_layouts: Vec<u64>,
}

impl PipelineLayout {
    /// A pipeline layout of `layouts`, in their order.
    pub fn new(gpu: &mut GpuContext, label: &'static str, layouts: &[&BindGroupLayout]) -> (layout:
        Self)
        requires
            old(gpu).has_room(1),
        ensures
            layout.id == old(gpu).next_id(),
            layout.label == label,
            layout.bind_group_layouts@ == Seq::new(layouts@.len(), |i: int| layouts@[i].id),
            final(gpu).next_id() == old(gpu).next_id() + 1,
            final(gpu).spec_float32_filterable() == old(gpu).spec_float32_filterable(),
    {
        let mut ids: Vec<u64> = Vec::new();
        let mut i: usize = 0;
        while i < layouts.len()
            invariant
                i <= layouts@.len(),
                ids@ == Seq::new(i as nat, |k: int| layouts@[k].id),
            decreases layouts.len() - i,
        {
            ids.push(layouts[i].id);
            i = i + 1;
            assert(ids@ =~= Seq::new(i as nat, |k: int| layouts@[k].id));
        }
        PipelineLayout { id: gpu.allocate(), label, bind_group_layouts: ids }
    }
}

/// What a device makes a compute pipeline from.
#[derive(Debug, Clone, Copy)]
pub struct ComputePipelineDescriptor {
    pub label: &'static str,
    pub layout: u64,
    pub module: u64,
    pub entry_point: &'static str,
}

/// What a device makes a render pipeline from: two entry points that draw
/// into one color target without blending.
#[derive(Debug, Clone, Copy)]
pub struct RenderPipelineDescriptor {
    pub label: &'static str,
    pub layout: u64,
    pub vertex_module: u64,
    pub vertex_entry: &'static str,
    pub fragment_module: u64,
    pub fragment_entry: &'static str,
    pub target_format: TextureFormat,
}

/// How a compute pipeline is made from a layout and a module.
#[derive(Debug, Clone, Copy)]
pub struct ComputeRecipe {
    pub label: &'static str,
    pub entry_point: &'static str,
}

/// How a render pipeline is made from a layout and its modules.
#[derive(Debug, Clone, Copy)]
pub struct RenderRecipe {
    pub label: &'static str,
    pub vertex_entry: &'static str,
    pub fragment_entry: &'static str,
    pub target_format: TextureFormat,
}

impl ComputeRecipe {
    pub open spec fn spec_build(&self, layout: u64, module: u64) -> ComputePipelineDescriptor {
        ComputePipelineDescriptor {
            label: self.label,
            layout,
            module,
            entry_point: self.entry_point,
        }
    }

    /// The descriptor of the pipeline for `layout` and `module`.
    pub fn build(&self, layout: &PipelineLayout, module: u64) -> (desc: ComputePipelineDescriptor)
        ensures
            desc == self.spec_build(layout.id, module),
    {
        ComputePipelineDescriptor {
            label: self.label,
            layout: layout.id,
            module,
            entry_point: self.entry_point,
        }
    }
}

impl RenderRecipe {
    pub open spec fn spec_build(&self, layout: u64, vertex: u64, fragment: u64) -> RenderPipelineDescriptor {
        RenderPipelineDescriptor {
            label: self.label,
            layout,
            vertex_module: vertex,
            vertex_entry: self.vertex_entry,
            fragment_module: fragment,
            fragment_entry: self.fragment_entry,
            target_format: self.target_format,
        }
    }

    /// The descriptor of the pipeline for `layout` and the two modules.
    pub fn build(&self, layout: &PipelineLayout, vertex: u64, fragment: u64) -> (desc:
        RenderPipelineDescriptor)
        ensures
            desc == self.spec_build(layout.id, vertex, fragment),
    {
        RenderPipelineDescriptor {
            label: self.label,
            layout: layout.id,
            vertex_module: vertex,
            vertex_entry: self.vertex_entry,
            fragment_module: fragment,
            fragment_entry: self.fragment_entry,
            target_format: self.target_format,
        }
    }
}

/// What the module of `shader` is made from once its file gave `data`.
pub open spec fn spec_reloaded(shader: Shader, data: Option<ShaderData>) -> ShaderModuleDescriptorView {
    spec_descriptor(
        shader.spec_source().spec_name(),
        shader.spec_source().spec_backend(),
        spec_loaded(data, shader.spec_source().spec_backend()),
    )
}

/// Why `shader` cannot take what a read of its file gave.
pub open spec fn spec_reload_error(shader: Shader, data: Option<ShaderData>) -> Option<ShaderError> {
    spec_load_error(shader.spec_source().spec_backend(), data)
}

/// Whether `after` is `before` with a compile begun on what a read of its
/// file gave: the same file, the new data, no error left from before, the
/// module `module`, and waiting for the device unless it is a binary.
pub open spec fn spec_begun(before: Shader, after: Shader, data: Option<ShaderData>, module: int) -> bool {
    &&& after.spec_source().spec_name() == before.spec_source().spec_name()
    &&& after.spec_source().spec_path() == before.spec_source().spec_path()
    &&& after.spec_source().spec_backend() == before.spec_source().spec_backend()
    &&& after.spec_source().spec_data() == spec_loaded(data, before.spec_source().spec_backend())
    &&& after.spec_module() == module
    &&& after.spec_error() is None
    &&& after.spec_state() == (match before.spec_source().spec_backend() {
        ShaderBackend::Wgsl => ShaderState::Compiling,
        ShaderBackend::Spirv => ShaderState::Compiled,
    })
}

/// Whether a shader falls back when the device reports `error`: it waits
/// for the report, and the report is an error.
pub open spec fn spec_falls_back(shader: Shader, error: Option<String>) -> bool {
    shader.spec_state() == ShaderState::Compiling && error is Some
}

/// Whether `after` is `before` with its compile ended by the report
/// `error`. A shader whose module stood already is untouched. A shader that
/// waited is compiled where there is no error; where there is one it holds
/// nothing, keeps the text of the error, and has the fallback `module`.
pub open spec fn spec_ended(before: Shader, after: Shader, error: Option<String>, module: int) -> bool {
    if before.spec_state() != ShaderState::Compiling {
        after == before
    } else {
        &&& after.spec_source().spec_name() == before.spec_source().spec_name()
        &&& after.spec_source().spec_path() == before.spec_source().spec_path()
        &&& after.spec_source().spec_backend() == before.spec_source().spec_backend()
        &&& after.spec_error() == spec_report(error)
        &&& after.spec_state() == crate::render::shader::spec_settled(
            error is Some,
            before.spec_source().spec_is_fallback(),
        )
        &&& if error is Some {
            after.spec_source().spec_is_fallback() && after.spec_module() == module
        } else {
            after.spec_source() == before.spec_source() && after.spec_module()
                == before.spec_module()
        }
    }
}

/// One where `yes`, none where not.
pub open spec fn spec_one(yes: bool) -> int {
    if yes {
        1
    } else {
        0
    }
}

/// The text of an error report, in spec terms.
pub open spec fn spec_report(error: Option<String>) -> Option<Seq<char>> {
    match error {
        Some(text) => Some(text@),
        None => None,
    }
}

/// Ends the compile of `shader` if one is under way, and leaves it alone if
/// its module stands already.
pub fn settle(shader: &mut Shader, gpu: &mut GpuContext, device_error: Option<String>) -> (fallback:
    Option<ShaderModuleDescriptor>)
    requires
        old(shader).wf(),
        old(shader).spec_state() == ShaderState::Compiling || old(shader).spec_ready(),
        old(gpu).has_room(1),
    ensures
        final(shader).wf(),
        final(shader).spec_ready(),
        final(gpu).spec_float32_filterable() == old(gpu).spec_float32_filterable(),
        final(gpu).next_id() == old(gpu).next_id() + spec_one(
            spec_falls_back(*old(shader), device_error),
        ),
        spec_ended(*old(shader), *final(shader), device_error, old(gpu).next_id() as int),
        fallback is Some == spec_falls_back(*old(shader), device_error),
        final(shader).spec_source().spec_name() == old(shader).spec_source().spec_name(),
        final(shader).spec_source().spec_path() == old(shader).spec_source().spec_path(),
        final(shader).spec_source().spec_backend() == old(shader).spec_source().spec_backend(),
        old(shader).spec_ready() ==> *final(shader) == *old(shader) && fallback is None
            && final(gpu).next_id() == old(gpu).next_id(),
        old(shader).spec_state() == ShaderState::Compiling ==> {
            &&& final(shader).spec_state() == crate::render::shader::spec_settled(
                device_error is Some,
                old(shader).spec_source().spec_is_fallback(),
            )
            &&& match device_error {
                Some(text) => {
                    &&& final(shader).spec_error() == Some(text@)
                    &&& final(shader).spec_module() == old(gpu).next_id()
                    &&& final(gpu).next_id() == old(gpu).next_id() + 1
                    &&& fallback matches Some(d) && d@ == (ShaderModuleDescriptorView::Fallback {
                        label: old(shader).spec_source().spec_name(),
                    })
                },
                None => {
                    &&& final(shader).spec_error() is None
                    &&& final(shader).spec_module() == old(shader).spec_module()
                    &&& final(shader).spec_source() == old(shader).spec_source()
                    &&& final(gpu).next_id() == old(gpu).next_id()
                    &&& fallback is None
                },
            }
        },
{
    match shader.state() {
        ShaderState::Compiling => shader.finish_compile(gpu, device_error),
        _ => None,
    }
}

/// A compute pipeline together with the shader it is made from.
#[derive(Debug)]
pub struct ManagedComputePipeline {
    shader: Shader,
    recipe: ComputeRecipe,
    pipeline: u64,
    layout: PipelineLayout,
}

impl ManagedComputePipeline {
    pub closed spec fn spec_shader(&self) -> Shader {
        self.shader
    }

    pub closed spec fn spec_recipe(&self) -> ComputeRecipe {
        self.recipe
    }

    /// Identity of the pipeline on the device.
    pub closed spec fn spec_pipeline(&self) -> u64 {
        self.pipeline
    }

    pub closed spec fn spec_layout(&self) -> PipelineLayout {
        self.layout
    }

    pub open spec fn wf(&self) -> bool {
        self.spec_shader().wf()
    }

    /// What the device made the pipeline from, as long as no reload is under way.
    pub open spec fn spec_descriptor(&self) -> ComputePipelineDescriptor {
        self.spec_recipe().spec_build(self.spec_layout().id, self.spec_shader().spec_module())
    }

    /// A pipeline for `layout` with the module of `shader`, which has to be
    /// compiled or fallen back.
    pub fn new(gpu: &mut GpuContext, layout: PipelineLayout, shader: Shader, recipe: ComputeRecipe) -> (managed:
        Self)
        requires
            shader.wf(),
            shader.spec_ready(),
            old(gpu).has_room(1),
        ensures
            managed.wf(),
            managed.spec_shader() == shader,
            managed.spec_recipe() == recipe,
            managed.spec_layout() == layout,
            managed.spec_pipeline() == old(gpu).next_id(),
            final(gpu).next_id() == old(gpu).next_id() + 1,
            final(gpu).spec_float32_filterable() == old(gpu).spec_float32_filterable(),
    {
        ManagedComputePipeline { shader, recipe, pipeline: gpu.allocate(), layout }
    }

    /// Takes a new read of the shader file and starts making its module. The
    /// pipeline and its layout stay as they are. A read that a binary shader
    /// cannot take is an error and leaves everything as it was.
    pub fn begin_reload(&mut self, gpu: &mut GpuContext, data: Option<ShaderData>) -> (desc: Result<
        ShaderModuleDescriptor,
        ShaderError,
    >)
        requires
            old(self).wf(),
            old(gpu).has_room(1),
        ensures
            final(self).wf(),
            final(self).spec_pipeline() == old(self).spec_pipeline(),
            final(self).spec_layout() == old(self).spec_layout(),
            final(self).spec_recipe() == old(self).spec_recipe(),
            final(gpu).spec_float32_filterable() == old(gpu).spec_float32_filterable(),
            match desc {
                Ok(d) => {
                    &&& spec_reload_error(old(self).spec_shader(), data) is None
                    &&& d@ == spec_reloaded(old(self).spec_shader(), data)
                    &&& spec_begun(
                        old(self).spec_shader(),
                        final(self).spec_shader(),
                        data,
                        old(gpu).next_id() as int,
                    )
                    &&& final(gpu).next_id() == old(gpu).next_id() + 1
                },
                Err(e) => {
                    &&& spec_reload_error(old(self).spec_shader(), data) == Some(e)
                    &&& *final(self) == *old(self)
                    &&& final(gpu).next_id() == old(gpu).next_id()
                },
            },
    {
        self.shader.recreate(gpu, data)
    }

    /// Ends a reload with the device's report on the compile: the pipeline
    /// is made anew with the module that stands now, against the layout it
    /// always had. On an error that module is the fallback, which is returned
    /// for the device to make. The fallback and the pipeline get an
    /// identity each.
    pub fn finish_reload(&mut self, gpu: &mut GpuContext, device_error: Option<String>) -> (fallback:
        Option<ShaderModuleDescriptor>)
        requires
            old(self).wf(),
            old(self).spec_shader().spec_state() == ShaderState::Compiling
                || old(self).spec_shader().spec_ready(),
            old(gpu).has_room(2),
        ensures
            final(self).wf(),
            final(self).spec_shader().spec_ready(),
            final(self).spec_layout() == old(self).spec_layout(),
            final(self).spec_recipe() == old(self).spec_recipe(),
            final(gpu).spec_float32_filterable() == old(gpu).spec_float32_filterable(),
            spec_ended(
                old(self).spec_shader(),
                final(self).spec_shader(),
                device_error,
                old(gpu).next_id() as int,
            ),
            final(self).spec_pipeline() == old(gpu).next_id() + spec_one(
                spec_falls_back(old(self).spec_shader(), device_error),
            ),
            final(gpu).next_id() == old(gpu).next_id() + spec_one(
                spec_falls_back(old(self).spec_shader(), device_error),
            ) + 1,
            match fallback {
                Some(d) => spec_falls_back(old(self).spec_shader(), device_error) && d@
                    == (ShaderModuleDescriptorView::Fallback {
                    label: old(self).spec_shader().spec_source().spec_name(),
                }),
                None => !spec_falls_back(old(self).spec_shader(), device_error),
            },
    {
        let fallback = settle(&mut self.shader, gpu, device_error);
        self.pipeline = gpu.allocate();
        fallback
    }

    /// What the device makes the pipeline from.
    pub fn descriptor(&self) -> (desc: ComputePipelineDescriptor)
        ensures
            desc == self.spec_descriptor(),
    {
        self.recipe.build(&self.layout, self.shader.module())
    }

    /// Identity of the pipeline on the device.
    #[verifier::when_used_as_spec(spec_pipeline)]
    pub fn pipeline(&self) -> (pipeline: u64)
        ensures
            pipeline == self.spec_pipeline(),
    {
        self.pipeline
    }

    /// The layout of the pipeline.
    pub fn layout(&self) -> (layout: &PipelineLayout)
        ensures
            *layout == self.spec_layout(),
    {
        &self.layout
    }

    /// The shader of the pipeline.
    pub fn shader(&self) -> (shader: &Shader)
        ensures
            *shader == self.spec_shader(),
    {
        &self.shader
    }
}


/// The shaders of a render pipeline: one for each stage, or one for both.
#[derive(Debug)]
pub enum RenderShaders {
    SeparateModules { vertex: Shader, fragment: Shader },
    SingleModule { shader: Shader },
}

impl RenderShaders {
    /// The shader of the vertex stage.
    pub open spec fn spec_vertex(&self) -> Shader {
        match self {
            RenderShaders::SeparateModules { vertex, fragment } => *vertex,
            RenderShaders::SingleModule { shader } => *shader,
        }
    }

    /// The shader of the fragment stage.
    pub open spec fn spec_fragment(&self) -> Shader {
        match self {
            RenderShaders::SeparateModules { vertex, fragment } => *fragment,
            RenderShaders::SingleModule { shader } => *shader,
        }
    }

    pub open spec fn spec_separate(&self) -> bool {
        self is SeparateModules
    }
}

/// What the device makes the modules of a reload from.
#[derive(Debug)]
pub struct ReloadModules {
    pub vertex: ShaderModuleDescriptor,
    /// The module of the fragment stage, where it has one of its own.
    pub fragment: Option<ShaderModuleDescriptor>,
}

/// The fallbacks that the device has to make at the end of a reload.
#[derive(Debug)]
pub struct ReloadFallbacks {
    pub vertex: Option<ShaderModuleDescriptor>,
    pub fragment: Option<ShaderModuleDescriptor>,
}

/// A render pipeline together with the shaders it is made from.
#[derive(Debug)]
pub struct ManagedRenderPipeline {
    metadata: RenderShaders,
    recipe: RenderRecipe,
    pipeline: u64,
    layout: PipelineLayout,
}

impl ManagedRenderPipeline {
    pub closed spec fn spec_shaders(&self) -> RenderShaders {
        self.metadata
    }

    pub closed spec fn spec_recipe(&self) -> RenderRecipe {
        self.recipe
    }

    /// Identity of the pipeline on the device.
    pub closed spec fn spec_pipeline(&self) -> u64 {
        self.pipeline
    }

    pub closed spec fn spec_layout(&self) -> PipelineLayout {
        self.layout
    }

    pub open spec fn wf(&self) -> bool {
        self.spec_shaders().spec_vertex().wf() && self.spec_shaders().spec_fragment().wf()
    }

    /// Whether both stages have a module that pipelines can be built with.
    pub open spec fn spec_ready(&self) -> bool {
        self.spec_shaders().spec_vertex().spec_ready()
            && self.spec_shaders().spec_fragment().spec_ready()
    }

    /// Whether each stage has a module or waits for the device to report on one.
    pub open spec fn spec_reloading(&self) -> bool {
        &&& self.spec_shaders().spec_vertex().spec_state() == ShaderState::Compiling
            || self.spec_shaders().spec_vertex().spec_ready()
        &&& self.spec_shaders().spec_fragment().spec_state() == ShaderState::Compiling
            || self.spec_shaders().spec_fragment().spec_ready()
    }

    /// What the device made the pipeline from, as long as no reload is under way.
    pub open spec fn spec_descriptor(&self) -> RenderPipelineDescriptor {
        self.spec_recipe().spec_build(
            self.spec_layout().id,
            self.spec_shaders().spec_vertex().spec_module(),
            self.spec_shaders().spec_fragment().spec_module(),
        )
    }

    /// A pipeline for `layout` whose stages have a shader each.
    pub fn with_separate_modules(
        gpu: &mut GpuContext,
        layout: PipelineLayout,
        vertex: Shader,
        fragment: Shader,
        recipe: RenderRecipe,
    ) -> (managed: Self)
        requires
            vertex.wf(),
            vertex.spec_ready(),
            fragment.wf(),
            fragment.spec_ready(),
            old(gpu).has_room(1),
        ensures
            managed.wf(),
            managed.spec_ready(),
            managed.spec_shaders() == (RenderShaders::SeparateModules { vertex, fragment }),
            managed.spec_recipe() == recipe,
            managed.spec_layout() == layout,
            managed.spec_pipeline() == old(gpu).next_id(),
            final(gpu).next_id() == old(gpu).next_id() + 1,
            final(gpu).spec_float32_filterable() == old(gpu).spec_float32_filterable(),
    {
        ManagedRenderPipeline {
            metadata: RenderShaders::SeparateModules { vertex, fragment },
            recipe,
            pipeline: gpu.allocate(),
            layout,
        }
    }

    /// A pipeline for `layout` whose stages share one shader.
    pub fn with_single_module(
        gpu: &mut GpuContext,
        layout: PipelineLayout,
        shader: Shader,
        recipe: RenderRecipe,
    ) -> (managed: Self)
        requires
            shader.wf(),
            shader.spec_ready(),
            old(gpu).has_room(1),
        ensures
            managed.wf(),
            managed.spec_ready(),
            managed.spec_shaders() == (RenderShaders::SingleModule { shader }),
            managed.spec_recipe() == recipe,
            managed.spec_layout() == layout,
            managed.spec_pipeline() == old(gpu).next_id(),
            final(gpu).next_id() == old(gpu).next_id() + 1,
            final(gpu).spec_float32_filterable() == old(gpu).spec_float32_filterable(),
    {
        ManagedRenderPipeline {
            metadata: RenderShaders::SingleModule { shader },
            recipe,
            pipeline: gpu.allocate(),
            layout,
        }
    }

    /// Why the shaders cannot take what reads of their files gave: the
    /// error of the vertex stage, or else that of a fragment stage of its own.
    pub open spec fn spec_reload_error(
        &self,
        vertex_data: Option<ShaderData>,
        fragment_data: Option<ShaderData>,
    ) -> Option<ShaderError> {
        match spec_reload_error(self.spec_shaders().spec_vertex(), vertex_data) {
            Some(e) => Some(e),
            None => if self.spec_shaders().spec_separate() {
                spec_reload_error(self.spec_shaders().spec_fragment(), fragment_data)
            } else {
                None
            },
        }
    }

    /// Why the shaders cannot take what reads of their files gave.
    pub fn reload_error(
        &self,
        vertex_data: &Option<ShaderData>,
        fragment_data: &Option<ShaderData>,
    ) -> (error: Option<ShaderError>)
        ensures
            error == self.spec_reload_error(*vertex_data, *fragment_data),
    {
        match &self.metadata {
            RenderShaders::SeparateModules { vertex, fragment } => {
                match load_error(vertex.source().backend(), vertex_data) {
                    Some(e) => Some(e),
                    None => load_error(fragment.source().backend(), fragment_data),
                }
            },
            RenderShaders::SingleModule { shader } => load_error(
                shader.source().backend(),
                vertex_data,
            ),
        }
    }

    /// The error that the last compile of the shaders ended with: that of
    /// the vertex stage, or else that of the fragment stage.
    pub fn error(&self) -> (error: Option<&String>)
        ensures
            match error {
                Some(text) => Some(text@) == (match self.spec_shaders().spec_vertex().spec_error() {
                    Some(e) => Some(e),
                    None => self.spec_shaders().spec_fragment().spec_error(),
                }),
                None => self.spec_shaders().spec_vertex().spec_error() is None
                    && self.spec_shaders().spec_fragment().spec_error() is None,
            },
    {
        match &self.metadata {
            RenderShaders::SeparateModules { vertex, fragment } => match vertex.error() {
                Some(text) => Some(text),
                None => fragment.error(),
            },
            RenderShaders::SingleModule { shader } => shader.error(),
        }
    }

    /// Takes new reads of the shader files and starts making their modules,
    /// the vertex stage first. The pipeline and its layout stay as they are.
    /// A single shader takes `vertex_data`. A read that a binary shader
    /// cannot take is an error and leaves everything as it was.
    pub fn begin_reload(
        &mut self,
        gpu: &mut GpuContext,
        vertex_data: Option<ShaderData>,
        fragment_data: Option<ShaderData>,
    ) -> (modules: Result<ReloadModules, ShaderError>)
        requires
            old(self).wf(),
            old(gpu).has_room(2),
        ensures
            final(self).wf(),
            final(self).spec_pipeline() == old(self).spec_pipeline(),
            final(self).spec_layout() == old(self).spec_layout(),
            final(self).spec_recipe() == old(self).spec_recipe(),
            final(self).spec_shaders().spec_separate() == old(self).spec_shaders().spec_separate(),
            final(gpu).spec_float32_filterable() == old(gpu).spec_float32_filterable(),
            match modules {
                Ok(m) => {
                    &&& old(self).spec_reload_error(vertex_data, fragment_data) is None
                    &&& final(self).spec_reloading()
                    &&& m.vertex@ == spec_reloaded(old(self).spec_shaders().spec_vertex(), vertex_data)
                    &&& spec_begun(
                        old(self).spec_shaders().spec_vertex(),
                        final(self).spec_shaders().spec_vertex(),
                        vertex_data,
                        old(gpu).next_id() as int,
                    )
                    &&& if old(self).spec_shaders().spec_separate() {
                        &&& m.fragment matches Some(f) && f@ == spec_reloaded(
                            old(self).spec_shaders().spec_fragment(),
                            fragment_data,
                        )
                        &&& spec_begun(
                            old(self).spec_shaders().spec_fragment(),
                            final(self).spec_shaders().spec_fragment(),
                            fragment_data,
                            old(gpu).next_id() + 1,
                        )
                        &&& final(gpu).next_id() == old(gpu).next_id() + 2
                    } else {
                        m.fragment is None && final(gpu).next_id() == old(gpu).next_id() + 1
                    }
                },
                Err(e) => {
                    &&& old(self).spec_reload_error(vertex_data, fragment_data) == Some(e)
                    &&& *final(self) == *old(self)
                    &&& final(gpu).next_id() == old(gpu).next_id()
                },
            },
    {
        match self.reload_error(&vertex_data, &fragment_data) {
            Some(e) => {
                return Err(e);
            },
            None => {},
        }
        match &mut self.metadata {
            RenderShaders::SeparateModules { vertex, fragment } => {
                let vertex_desc = match vertex.recreate(gpu, vertex_data) {
                    Ok(desc) => desc,
                    Err(_) => unreached(),
                };
                let fragment_desc = match fragment.recreate(gpu, fragment_data) {
                    Ok(desc) => desc,
                    Err(_) => unreached(),
                };
                Ok(ReloadModules { vertex: vertex_desc, fragment: Some(fragment_desc) })
            },
            RenderShaders::SingleModule { shader } => {
                match shader.recreate(gpu, vertex_data) {
                    Ok(desc) => Ok(ReloadModules { vertex: desc, fragment: None }),
                    Err(_) => unreached(),
                }
            },
        }
    }

    /// Ends a reload with the device's reports on the compiles: the pipeline
    /// is made anew with the modules that stand now, against the layout it
    /// always had. A stage whose compile failed has the fallback as its
    /// module, which is returned for the device to make. A single shader
    /// takes `vertex_error`. Every fallback and the pipeline get an identity
    /// each, the vertex stage first and the pipeline last.
    pub fn finish_reload(
        &mut self,
        gpu: &mut GpuContext,
        vertex_error: Option<String>,
        fragment_error: Option<String>,
    ) -> (fallbacks: ReloadFallbacks)
        requires
            old(self).wf(),
            old(self).spec_reloading(),
            old(gpu).has_room(3),
        ensures
            final(self).wf(),
            final(self).spec_ready(),
            final(self).spec_layout() == old(self).spec_layout(),
            final(self).spec_recipe() == old(self).spec_recipe(),
            final(self).spec_shaders().spec_separate() == old(self).spec_shaders().spec_separate(),
            final(gpu).spec_float32_filterable() == old(gpu).spec_float32_filterable(),
            spec_ended(
                old(self).spec_shaders().spec_vertex(),
                final(self).spec_shaders().spec_vertex(),
                vertex_error,
                old(gpu).next_id() as int,
            ),
            fallbacks.vertex is Some == spec_falls_back(
                old(self).spec_shaders().spec_vertex(),
                vertex_error,
            ),
            old(self).spec_shaders().spec_separate() ==> {
                &&& spec_ended(
                    old(self).spec_shaders().spec_fragment(),
                    final(self).spec_shaders().spec_fragment(),
                    fragment_error,
                    old(gpu).next_id() + spec_one(
                        spec_falls_back(old(self).spec_shaders().spec_vertex(), vertex_error),
                    ),
                )
                &&& fallbacks.fragment is Some == spec_falls_back(
                    old(self).spec_shaders().spec_fragment(),
                    fragment_error,
                )
            },
            !old(self).spec_shaders().spec_separate() ==> fallbacks.fragment is None,
            final(self).spec_pipeline() == old(gpu).next_id() + spec_one(fallbacks.vertex is Some)
                + spec_one(fallbacks.fragment is Some),
            final(gpu).next_id() == old(gpu).next_id() + spec_one(fallbacks.vertex is Some)
                + spec_one(fallbacks.fragment is Some) + 1,
    {
        let fallbacks = match &mut self.metadata {
            RenderShaders::SeparateModules { vertex, fragment } => {
                let vertex_fallback = settle(vertex, gpu, vertex_error);
                let fragment_fallback = settle(fragment, gpu, fragment_error);
                ReloadFallbacks { vertex: vertex_fallback, fragment: fragment_fallback }
            },
            RenderShaders::SingleModule { shader } => {
                let fallback = settle(shader, gpu, vertex_error);
                ReloadFallbacks { vertex: fallback, fragment: None }
            },
        };
        self.pipeline = gpu.allocate();
        fallbacks
    }

    /// What the device makes the pipeline from.
    pub fn descriptor(&self) -> (desc: RenderPipelineDescriptor)
        ensures
            desc == self.spec_descriptor(),
    {
        match &self.metadata {
            RenderShaders::SeparateModules { vertex, fragment } => self.recipe.build(
                &self.layout,
                vertex.module(),
                fragment.module(),
            ),
            RenderShaders::SingleModule { shader } => self.recipe.build(
                &self.layout,
                shader.module(),
                shader.module(),
            ),
        }
    }

    /// Identity of the pipeline on the device.
    #[verifier::when_used_as_spec(spec_pipeline)]
    pub fn pipeline(&self) -> (pipeline: u64)
        ensures
            pipeline == self.spec_pipeline(),
    {
        self.pipeline
    }

    /// The layout of the pipeline.
    pub fn layout(&self) -> (layout: &PipelineLayout)
        ensures
            *layout == self.spec_layout(),
    {
        &self.layout
    }

    /// The shaders of the pipeline.
    pub fn shaders(&self) -> (shaders: &RenderShaders)
        ensures
            *shaders == self.spec_shaders(),
    {
        &self.metadata
    }
}


/// Pipelines by name, one of which is active.
///
/// This is a map from names to pipelines. Names are texts, and vstd models
/// hashing for integer keys only, so the map is kept as two lists in the
/// order of insertion, with the invariant that makes them a map: every
/// pipeline has a name, and no name is used twice.
pub struct PipelineSet<P> {
    names: Vec<String>,
    pipelines: Vec<P>,
    active_pipeline: String,
}

impl<P> PipelineSet<P> {
    /// The names of the pipelines.
    pub closed spec fn spec_names(&self) -> Seq<String> {
        self.names@
    }

    /// The pipelines, each at the index of its name.
    pub closed spec fn spec_pipelines(&self) -> Seq<P> {
        self.pipelines@
    }

    /// The name of the active pipeline.
    pub closed spec fn spec_active(&self) -> Seq<char> {
        self.active_pipeline@
    }

    /// Every pipeline has a name, and no name is used twice.
    pub open spec fn wf(&self) -> bool {
        &&& self.spec_names().len() == self.spec_pipelines().len()
        &&& forall|i: int, j: int|
            0 <= i < j < self.spec_names().len() ==> (#[trigger] self.spec_names()[i])@ != (
            #[trigger] self.spec_names()[j])@
    }

    /// One pipeline, named `name`, which is active.
    pub fn init(name: &str, pipeline: P) -> (set: Self)
        ensures
            set.wf(),
            set.spec_names().len() == 1,
            set.spec_names()[0]@ == name@,
            set.spec_pipelines() == seq![pipeline],
            set.spec_active() == name@,
    {
        let mut names: Vec<String> = Vec::new();
        names.push(String::from_str(name));
        let mut pipelines: Vec<P> = Vec::new();
        pipelines.push(pipeline);
        assert(pipelines@ =~= seq![pipeline]);
        PipelineSet { names, pipelines, active_pipeline: String::from_str(name) }
    }

    /// Puts `pipeline` under `name`: in the place of the pipeline that had
    /// the name, or behind the others where none had it.
    pub fn insert(&mut self, name: &str, pipeline: P)
        requires
            old(self).wf(),
        ensures
            final(self).wf(),
            final(self).spec_active() == old(self).spec_active(),
            spec_position_of(old(self).spec_names(), name@) < old(self).spec_names().len() ==> {
                &&& final(self).spec_names() == old(self).spec_names()
                &&& final(self).spec_pipelines() == old(self).spec_pipelines().update(
                    spec_position_of(old(self).spec_names(), name@),
                    pipeline,
                )
            },
            spec_position_of(old(self).spec_names(), name@) == old(self).spec_names().len() ==> {
                &&& final(self).spec_names().drop_last() == old(self).spec_names()
                &&& final(self).spec_names().last()@ == name@
                &&& final(self).spec_pipelines() == old(self).spec_pipelines().push(pipeline)
            },
    {
        proof {
            lemma_position_of(self.names@, name@);
        }
        match position_of(&self.names, name) {
            Some(i) => {
                self.pipelines[i] = pipeline;
            },
            None => {
                let ghost before = self.names@;
                self.names.push(String::from_str(name));
                self.pipelines.push(pipeline);
                assert(self.names@.drop_last() =~= before);
            },
        }
    }

    /// The active pipeline; `None` where no pipeline has the active name.
    pub fn get_active_pipeline(&self) -> (pipeline: Option<&P>)
        requires
            self.wf(),
        ensures
            match pipeline {
                Some(p) => spec_position_of(self.spec_names(), self.spec_active())
                    < self.spec_names().len() && *p == self.spec_pipelines()[spec_position_of(
                    self.spec_names(),
                    self.spec_active(),
                )],
                None => spec_position_of(self.spec_names(), self.spec_active())
                    == self.spec_names().len(),
            },
    {
        match position_of(&self.names, self.active_pipeline.as_str()) {
            Some(i) => Some(&self.pipelines[i]),
            None => None,
        }
    }

    /// Makes the pipeline named `active_pipeline` the active one.
    pub fn set_active_pipeline(&mut self, active_pipeline: &str)
        ensures
            final(self).spec_active() == active_pipeline@,
            final(self).spec_names() == old(self).spec_names(),
            final(self).spec_pipelines() == old(self).spec_pipelines(),
    {
        self.active_pipeline = String::from_str(active_pipeline);
    }
}


} // verus!
