use goldenrod::fps::{FpsCounter, MAX_SAMPLE_NANOS};
use goldenrod::input::{
    handle_keyboard_input_event, handle_mouse_input_event, ElementState, Input,
};
use goldenrod::render::binding::{
    bind_buffer_uniform, bind_sampler, bind_texture, kind_fits, Binding, BindingError,
    BindingResource, BindingType, SamplerBindingType,
};
use goldenrod::render::preprocess::{Directive, Preprocessor};
use goldenrod::render::shader::{Shader, ShaderSource, SPIRV_MAGIC};
use goldenrod::render::texture::{
    TextureFormat, TextureSampleType, TextureView, TextureViewDimension,
};
use goldenrod::render::{
    step, Command, CommandEncoder, EncoderState, GpuContext, LoadOp, RenderTarget,
};
use goldenrod::render::stream::{segments, PassKind, Segment};
use goldenrod::renderer::profiler::RenderProfiler;
use goldenrod::renderer::display::{init_pipelines as init_display, DisplayBinding, DISPLAY_PIPELINE};
use goldenrod::renderer::material::{
    init_pipelines as init_material, MaterialTextures, MATERIAL_PIPELINE,
};
use goldenrod::renderer::pathtrace::PathtracePass;
use goldenrod::renderer::pipelines::RenderShaders;
use goldenrod::renderer::{RendererViewport, SurfaceState, UVec2};
use goldenrod::time::Time;

fn view_of(texture: u64) -> TextureView {
    TextureView {
        texture,
        format: None,
        dimension: None,
        base_mip_level: 0,
        mip_level_count: None,
        base_array_layer: 0,
        array_layer_count: None,
    }
}

fn binary_shader(gpu: &mut GpuContext, path: &str) -> Shader {
    let mut shader = Shader::new(
        ShaderSource::load_spirv(path, Some(SPIRV_MAGIC.to_le_bytes().to_vec())).unwrap(),
    );
    let _ = shader.begin_compile(gpu);
    shader
}

#[test]
fn kinds_of_resources_and_slots() {
    let buffer = bind_buffer_uniform(1);
    let sampler = bind_sampler(2, SamplerBindingType::Filtering);
    let texture = bind_texture(
        view_of(3),
        TextureSampleType::Float { filterable: true },
        TextureViewDimension::D2,
    );
    assert!(kind_fits(buffer.binding_type, buffer.resource));
    assert!(kind_fits(sampler.binding_type, sampler.resource));
    assert!(kind_fits(texture.binding_type, texture.resource));
    assert!(!kind_fits(buffer.binding_type, sampler.resource));
    assert!(!kind_fits(sampler.binding_type, texture.resource));
    assert!(!kind_fits(texture.binding_type, buffer.resource));
    assert!(kind_fits(
        BindingType::StorageTexture {
            access: goldenrod::render::binding::StorageTextureAccess::ReadOnly,
            format: TextureFormat::R32Float,
            view_dimension: TextureViewDimension::D1,
        },
        texture.resource
    ));
}

#[test]
fn try_rebind_refuses_what_does_not_fit_the_layout() {
    let mut gpu = GpuContext::new(true);
    let mut binding = Binding::new(
        &mut gpu,
        &[
            bind_texture(
                view_of(3),
                TextureSampleType::Float { filterable: true },
                TextureViewDimension::D2,
            ),
            bind_sampler(2, SamplerBindingType::Filtering),
        ],
    );
    let group = binding.bind_group().id;
    assert_eq!(
        binding.try_rebind(&mut gpu, &[BindingResource::TextureView(view_of(9))]),
        Err(BindingError::Count)
    );
    assert_eq!(
        binding.try_rebind(
            &mut gpu,
            &[BindingResource::TextureView(view_of(9)), BindingResource::TextureView(view_of(9))]
        ),
        Err(BindingError::Kind { index: 1 })
    );
    assert_eq!(
        binding.try_rebind(
            &mut gpu,
            &[BindingResource::Sampler(2), BindingResource::TextureView(view_of(9))]
        ),
        Err(BindingError::Kind { index: 0 })
    );
    assert_eq!(binding.bind_group().id, group);
    assert_eq!(gpu.remaining(), u64::MAX - 2);
    assert_eq!(
        binding.try_rebind(
            &mut gpu,
            &[BindingResource::TextureView(view_of(9)), BindingResource::Sampler(2)]
        ),
        Ok(())
    );
    assert_eq!(binding.bind_group().id, 2);
    assert_eq!(
        binding.bind_group().entries[0].resource,
        BindingResource::TextureView(view_of(9))
    );
}

#[test]
fn keyboard_events_reach_the_keys() {
    let mut input: Input<u32, u8> = Input::new();
    handle_keyboard_input_event(&mut input, Some(17), ElementState::Pressed);
    assert!(input.keys.pressed(17));
    assert!(input.keys.just_pressed(17));
    assert!(!input.mouse_buttons.pressed(17));
    handle_keyboard_input_event(&mut input, None, ElementState::Pressed);
    handle_keyboard_input_event(&mut input, None, ElementState::Released);
    assert!(input.keys.pressed(17));
    handle_keyboard_input_event(&mut input, Some(17), ElementState::Released);
    assert!(!input.keys.pressed(17));
    assert!(input.keys.just_released(17));
    input.update();
    assert!(!input.keys.just_released(17));
    assert!(!input.keys.just_pressed(17));
}

#[test]
fn mouse_events_reach_the_buttons() {
    let mut input: Input<u32, u8> = Input::new();
    handle_mouse_input_event(&mut input, ElementState::Pressed, 1);
    assert!(input.mouse_buttons.pressed(1));
    assert!(input.mouse_buttons.just_pressed(1));
    assert!(!input.keys.pressed(1));
    input.update();
    assert!(input.mouse_buttons.pressed(1));
    assert!(!input.mouse_buttons.just_pressed(1));
    handle_mouse_input_event(&mut input, ElementState::Released, 1);
    assert!(!input.mouse_buttons.pressed(1));
    assert!(input.mouse_buttons.just_released(1));
}

#[test]
fn fps_counter_takes_the_frame_time_of_the_clock() {
    let mut time = Time::new();
    let mut counter = FpsCounter::new();
    time.advance(std::time::Instant::now(), 16_000_000);
    counter.update(&time);
    time.advance(std::time::Instant::now(), 17_000_000);
    counter.update(&time);
    assert_eq!(counter.count(), 2);
    assert_eq!(counter.total(), 33_000_000);
    time.advance(std::time::Instant::now(), u128::MAX);
    counter.update(&time);
    assert_eq!(counter.total(), 33_000_000 + MAX_SAMPLE_NANOS);
}

#[test]
fn splice_takes_the_text_and_remembers_the_file() {
    let mut pre = Preprocessor::new("#include a.wgsl".to_string());
    pre.splice(Directive { path: "a.wgsl".to_string(), repeated: false }, "A".to_string());
    assert_eq!(pre.source(), "A");
    assert!(pre.classify(Some("a.wgsl".to_string())).unwrap().repeated);
    pre.splice(Directive { path: "b.wgsl".to_string(), repeated: true }, "B".to_string());
    assert_eq!(pre.source(), "B");
    assert!(!pre.classify(Some("b.wgsl".to_string())).unwrap().repeated);
}

#[test]
fn replacement_text_may_refer_to_the_directive() {
    let mut pre = Preprocessor::new("#include a.wgsl;".to_string());
    assert_eq!(pre.resolve("// from $1\n$$x"), Ok(true));
    assert_eq!(pre.source(), "// from a.wgsl\n$x;");
}

#[test]
fn pathtrace_shader_file() {
    assert_eq!(PathtracePass::create_shader(), "assets/shaders/spirv/pathtrace.spv");
    let recipe = PathtracePass::create_pipeline();
    assert_eq!(recipe.label, "pathtrace_compute_pipeline");
    assert_eq!(recipe.entry_point, "compute");
}

#[test]
fn display_pipelines_at_startup() {
    let mut gpu = GpuContext::new(true);
    let surface = SurfaceState { width: 64, height: 64, format: TextureFormat::Rgba8UnormSrgb };
    let textures = MaterialTextures::init(&mut gpu, &surface);
    let viewport =
        RendererViewport { start: UVec2 { x: 0, y: 0 }, end: UVec2 { x: 64, y: 64 } };
    let display = DisplayBinding::init(&mut gpu, &viewport, textures.current_texture());
    let screen = Binding::new(&mut gpu, &[bind_buffer_uniform(0)]);
    let response = Binding::new(&mut gpu, &[bind_sampler(1, SamplerBindingType::Filtering)]);
    let vertex = binary_shader(&mut gpu, "frame.spv");
    let fragment = binary_shader(&mut gpu, "final.spv");
    let vertex_module = vertex.module();
    let fragment_module = fragment.module();
    let pipelines = init_display(
        &mut gpu,
        &surface,
        screen.bind_group_layout(),
        response.bind_group_layout(),
        &display,
        vertex,
        fragment,
    );
    let active = pipelines.get_active_pipeline().unwrap();
    assert_eq!(DISPLAY_PIPELINE, "final.slang");
    assert_eq!(active.layout().label, "display_pipeline_layout");
    assert_eq!(
        active.layout().bind_group_layouts,
        vec![
            screen.bind_group_layout().id,
            response.bind_group_layout().id,
            display.binding().bind_group_layout().id,
        ]
    );
    let desc = active.descriptor();
    assert_eq!(desc.label, "final.slang");
    assert_eq!(desc.vertex_entry, "vertex");
    assert_eq!(desc.fragment_entry, "fragment");
    assert_eq!(desc.vertex_module, vertex_module);
    assert_eq!(desc.fragment_module, fragment_module);
    assert_eq!(desc.target_format, TextureFormat::Rgba8UnormSrgb);
    assert!(matches!(active.shaders(), RenderShaders::SeparateModules { .. }));
}

#[test]
fn material_pipelines_at_startup() {
    let mut gpu = GpuContext::new(true);
    let surface = SurfaceState { width: 64, height: 64, format: TextureFormat::Rgba8UnormSrgb };
    let textures = MaterialTextures::init(&mut gpu, &surface);
    let screen = Binding::new(&mut gpu, &[]);
    let objects = Binding::new(&mut gpu, &[]);
    let spectrum = Binding::new(&mut gpu, &[]);
    let shader = binary_shader(&mut gpu, "pathtrace.spv");
    let module = shader.module();
    let pipelines = init_material(
        &mut gpu,
        screen.bind_group_layout(),
        objects.bind_group_layout(),
        spectrum.bind_group_layout(),
        &textures,
        shader,
    );
    let active = pipelines.get_active_pipeline().unwrap();
    assert_eq!(MATERIAL_PIPELINE, "pathtrace.slang");
    assert_eq!(active.layout().label, "material_pipeline_layout");
    assert_eq!(
        active.layout().bind_group_layouts,
        vec![
            screen.bind_group_layout().id,
            objects.bind_group_layout().id,
            spectrum.bind_group_layout().id,
            textures.binding().bind_group_layout().id,
        ]
    );
    assert_eq!(active.descriptor().entry_point, "compute");
    assert_eq!(active.descriptor().module, module);
    assert_eq!(active.descriptor().label, "pathtrace.slang");
}

#[test]
fn encoder_takes_a_command_only_where_it_has_a_place() {
    let mut encoder = CommandEncoder::new();
    assert_eq!(encoder.state(), EncoderState::Outside);
    assert!(!encoder.try_record(Command::EndPass));
    assert!(!encoder.try_record(Command::SetPipeline { pipeline: 1 }));
    assert!(!encoder.try_record(Command::DispatchWorkgroups { x: 1, y: 1, z: 1 }));
    assert!(encoder.commands().is_empty());
    assert!(encoder.try_record(Command::BeginComputePass));
    assert_eq!(encoder.state(), EncoderState::Compute { pipeline: false });
    assert!(!encoder.try_record(Command::BeginComputePass));
    assert!(!encoder.try_record(Command::WriteTimestamp { query_set: 0, index: 0 }));
    assert!(!encoder.try_record(Command::DispatchWorkgroups { x: 1, y: 1, z: 1 }));
    assert!(encoder.try_record(Command::SetBindGroup { index: 0, bind_group: 3 }));
    assert!(encoder.try_record(Command::SetPipeline { pipeline: 1 }));
    assert_eq!(encoder.state(), EncoderState::Compute { pipeline: true });
    assert!(!encoder.try_record(Command::Draw {
        first_vertex: 0,
        vertex_count: 3,
        first_instance: 0,
        instance_count: 1
    }));
    assert!(encoder.try_record(Command::DispatchWorkgroups { x: 1, y: 1, z: 1 }));
    assert!(encoder.try_record(Command::EndPass));
    assert_eq!(encoder.state(), EncoderState::Outside);
    assert!(encoder.try_record(Command::BeginRenderPass {
        target: RenderTarget::Texture(4),
        load: LoadOp::Load
    }));
    assert!(!encoder.try_record(Command::Draw {
        first_vertex: 0,
        vertex_count: 3,
        first_instance: 0,
        instance_count: 1
    }));
    assert!(encoder.try_record(Command::SetPipeline { pipeline: 2 }));
    assert!(encoder.try_record(Command::Draw {
        first_vertex: 0,
        vertex_count: 3,
        first_instance: 0,
        instance_count: 1
    }));
    assert!(!encoder.try_record(Command::DispatchWorkgroups { x: 1, y: 1, z: 1 }));
    assert!(encoder.try_record(Command::EndPass));
    assert_eq!(encoder.commands().len(), 9);
    assert_eq!(step(EncoderState::Outside, Command::EndPass), None);
    assert_eq!(
        step(EncoderState::Render { pipeline: false }, Command::EndPass),
        Some(EncoderState::Outside)
    );
    assert_eq!(
        step(
            EncoderState::Outside,
            Command::CopyBufferToBuffer {
                source: 0,
                source_offset: 0,
                destination: 1,
                destination_offset: 0,
                size: 4
            }
        ),
        Some(EncoderState::Outside)
    );
}

#[test]
fn every_pass_leaves_the_recording_outside_any_pass() {
    let mut gpu = GpuContext::new(true);
    let surface = SurfaceState { width: 64, height: 64, format: TextureFormat::Rgba8UnormSrgb };
    let textures = MaterialTextures::init(&mut gpu, &surface);
    let screen = Binding::new(&mut gpu, &[]);
    let shader = binary_shader(&mut gpu, "pathtrace.spv");
    let pipelines = init_material(
        &mut gpu,
        screen.bind_group_layout(),
        screen.bind_group_layout(),
        screen.bind_group_layout(),
        &textures,
        shader,
    );
    let mut profiler = RenderProfiler::new();
    let index = profiler.push(&mut gpu, "material_pass");
    let mut encoder = CommandEncoder::new();
    goldenrod::renderer::material::draw(
        &mut encoder,
        &mut profiler,
        index,
        1,
        2,
        3,
        &textures,
        pipelines.get_active_pipeline().unwrap(),
    );
    assert_eq!(encoder.state(), EncoderState::Outside);
    let mut replay = CommandEncoder::new();
    for command in encoder.commands() {
        assert!(replay.try_record(*command));
    }
    assert_eq!(replay.state(), EncoderState::Outside);
}

#[test]
fn segments_of_a_whole_recording() {
    let commands = vec![
        Command::WriteTimestamp { query_set: 7, index: 0 },
        Command::BeginComputePass,
        Command::SetPipeline { pipeline: 1 },
        Command::DispatchWorkgroups { x: 4, y: 2, z: 1 },
        Command::EndPass,
        Command::BeginRenderPass { target: RenderTarget::Surface, load: LoadOp::Load },
        Command::EndPass,
        Command::WriteTimestamp { query_set: 7, index: 1 },
    ];
    let parts = segments(&commands).unwrap();
    assert_eq!(parts.len(), 4);
    assert!(matches!(
        parts[0],
        Segment::Single(Command::WriteTimestamp { query_set: 7, index: 0 })
    ));
    match &parts[1] {
        Segment::Pass(pass) => {
            assert_eq!(pass.kind, PassKind::Compute);
            assert_eq!(
                pass.commands,
                vec![
                    Command::SetPipeline { pipeline: 1 },
                    Command::DispatchWorkgroups { x: 4, y: 2, z: 1 },
                ]
            );
        }
        other => panic!("unexpected segment {:?}", other),
    }
    match &parts[2] {
        Segment::Pass(pass) => {
            assert_eq!(
                pass.kind,
                PassKind::Render { target: RenderTarget::Surface, load: LoadOp::Load }
            );
            assert!(pass.commands.is_empty());
        }
        other => panic!("unexpected segment {:?}", other),
    }
    assert!(matches!(
        parts[3],
        Segment::Single(Command::WriteTimestamp { query_set: 7, index: 1 })
    ));
    assert_eq!(segments(&[]).map(|parts| parts.len()), Some(0));
}

#[test]
fn segments_of_a_broken_recording() {
    assert!(segments(&[Command::EndPass]).is_none());
    assert!(segments(&[Command::BeginComputePass]).is_none());
    assert!(segments(&[Command::BeginComputePass, Command::BeginComputePass]).is_none());
    assert!(segments(&[
        Command::BeginComputePass,
        Command::DispatchWorkgroups { x: 1, y: 1, z: 1 },
        Command::EndPass
    ])
    .is_none());
    assert!(segments(&[
        Command::BeginComputePass,
        Command::EndPass,
        Command::SetPipeline { pipeline: 1 }
    ])
    .is_none());
    assert!(segments(&[
        Command::BeginRenderPass { target: RenderTarget::Surface, load: LoadOp::Load },
        Command::WriteTimestamp { query_set: 0, index: 0 },
        Command::EndPass
    ])
    .is_none());
}
