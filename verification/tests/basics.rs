use goldenrod::ecs::ResourceWrapper;
use goldenrod::events::{MenuResizeEvent, ShaderRecompileEvent, WindowResizeEvent};
use goldenrod::fps::{FpsCounter, FPS_NUM_SAMPLES, MAX_SAMPLE_NANOS};
use goldenrod::input::ButtonInputs;
use goldenrod::menu::{GeometryType, Menu, Settings};
use goldenrod::object::MaterialType;
use goldenrod::renderer::{RendererViewport, SurfaceState, UVec2};
use goldenrod::render::texture::TextureFormat;
use goldenrod::time::Time;
use goldenrod::util::{
    asset_path, is_extension, is_relative, last_index_of, names_file, path_name_to_string,
    position_of, same_text, shader_path, with_extension,
};

#[test]
fn shader_path_replaces_the_extension() {
    assert_eq!(shader_path("pathtrace.slang"), "assets/shaders/spirv/pathtrace.spv");
    assert_eq!(shader_path("frame.slang"), "assets/shaders/spirv/frame.spv");
    assert_eq!(shader_path("post/final.slang"), "assets/shaders/spirv/post/final.spv");
    assert_eq!(shader_path("noext"), "assets/shaders/spirv/noext.spv");
}

#[test]
fn asset_path_is_under_the_assets() {
    assert_eq!(asset_path("textures/a.bin"), "assets/textures/a.bin");
    assert_eq!(asset_path(""), "assets/");
}

#[test]
fn with_extension_edge_cases() {
    assert_eq!(with_extension("a.b.c", "spv"), "a.b.spv");
    assert_eq!(with_extension("dir.d/file", "spv"), "dir.d/file.spv");
    assert_eq!(with_extension(".hidden", "spv"), ".hidden.spv");
    assert_eq!(with_extension("dir/.hidden", "spv"), "dir/.hidden.spv");
    assert_eq!(with_extension("dir/.hidden.txt", "spv"), "dir/.hidden.spv");
    assert_eq!(with_extension("a.", "spv"), "a.spv");
    assert_eq!(with_extension("..a", "spv"), "..spv");
    assert_eq!(with_extension("a//b.c", "d"), "a//b.d");
    assert_eq!(with_extension("größe.slang", "spv"), "größe.spv");
}

#[test]
fn path_name_is_what_follows_the_last_slash() {
    assert_eq!(path_name_to_string("assets/shaders/sky.wgsl"), "sky.wgsl");
    assert_eq!(path_name_to_string("sky.wgsl"), "sky.wgsl");
    assert_eq!(path_name_to_string("/sky.wgsl"), "sky.wgsl");
    assert_eq!(path_name_to_string("a/..b"), "..b");
    assert_eq!(path_name_to_string("a/b..."), "b...");
}

#[test]
fn last_index_counts_characters() {
    assert_eq!(last_index_of("a/b/c", '/'), Some(3));
    assert_eq!(last_index_of("abc", '/'), None);
    assert_eq!(last_index_of("", '/'), None);
    assert_eq!(last_index_of("ä/ö", '/'), Some(1));
    assert_eq!(last_index_of("/", '/'), Some(0));
}

#[test]
fn text_comparison_and_lookup() {
    assert!(same_text("abc", "abc"));
    assert!(!same_text("abc", "abd"));
    assert!(!same_text("abc", "ab"));
    assert!(same_text("", ""));
    let names = vec!["a".to_string(), "b".to_string(), "a".to_string()];
    assert_eq!(position_of(&names, "a"), Some(0));
    assert_eq!(position_of(&names, "b"), Some(1));
    assert_eq!(position_of(&names, "c"), None);
    assert_eq!(position_of(&Vec::new(), "a"), None);
}

#[test]
fn resource_wrapper_hands_the_value_back() {
    let wrapper = ResourceWrapper::new(41u32);
    assert_eq!(*wrapper.get(), 41);
    assert_eq!(wrapper.into_inner(), 41);
    let text = ResourceWrapper::new("x".to_string());
    assert_eq!(text.into_inner(), "x");
}

#[test]
fn events_are_units() {
    assert_eq!(MenuResizeEvent, MenuResizeEvent);
    assert_eq!(WindowResizeEvent, WindowResizeEvent);
    assert_eq!(ShaderRecompileEvent, ShaderRecompileEvent);
}

#[test]
fn press_marks_held_and_just_pressed() {
    let mut inputs: ButtonInputs<u32> = ButtonInputs::new();
    assert!(!inputs.pressed(1));
    inputs.press(1);
    assert!(inputs.pressed(1));
    assert!(inputs.just_pressed(1));
    assert!(!inputs.just_released(1));
    assert!(!inputs.pressed(2));
}

#[test]
fn press_of_a_held_button_is_no_new_press() {
    let mut inputs: ButtonInputs<u32> = ButtonInputs::new();
    inputs.press(1);
    inputs.update();
    assert!(inputs.pressed(1));
    assert!(!inputs.just_pressed(1));
    inputs.press(1);
    assert!(!inputs.just_pressed(1));
}

#[test]
fn release_marks_just_released_only_if_held() {
    let mut inputs: ButtonInputs<u32> = ButtonInputs::new();
    inputs.release(3);
    assert!(!inputs.just_released(3));
    inputs.press(3);
    inputs.release(3);
    assert!(!inputs.pressed(3));
    assert!(inputs.just_released(3));
    assert!(inputs.just_pressed(3));
    inputs.update();
    assert!(!inputs.just_released(3));
    assert!(!inputs.just_pressed(3));
    assert!(!inputs.pressed(3));
}

#[test]
fn time_counts_frames() {
    let mut time = Time::new();
    assert_eq!(time.frame_count(), 0);
    assert_eq!(time.delta(), 0);
    time.update();
    time.update();
    assert_eq!(time.frame_count(), 2);
    time.advance(std::time::Instant::now(), 16_000_000);
    assert_eq!(time.frame_count(), 3);
    assert_eq!(time.delta(), 16_000_000);
}

#[test]
fn fps_counter_fills_and_wraps() {
    let mut counter = FpsCounter::new();
    assert_eq!(counter.count(), 0);
    assert_eq!(counter.total(), 0);
    counter.push(10);
    counter.push(20);
    assert_eq!(counter.count(), 2);
    assert_eq!(counter.total(), 30);
    for _ in 0..FPS_NUM_SAMPLES {
        counter.push(5);
    }
    assert_eq!(counter.count(), FPS_NUM_SAMPLES);
    assert_eq!(counter.total(), 5 * FPS_NUM_SAMPLES as u128);
    counter.push(105);
    assert_eq!(counter.count(), FPS_NUM_SAMPLES);
    assert_eq!(counter.total(), 5 * FPS_NUM_SAMPLES as u128 + 100);
}

#[test]
fn fps_counter_holds_the_longest_frame_times() {
    let mut counter = FpsCounter::default();
    for _ in 0..FPS_NUM_SAMPLES {
        counter.push(MAX_SAMPLE_NANOS);
    }
    assert_eq!(counter.total(), MAX_SAMPLE_NANOS * 64);
}

#[test]
fn settings_and_geometry_defaults() {
    assert_eq!(
        Settings::default(),
        Settings { fullscreen: false, accumulate: true, spectral: true }
    );
    assert_eq!(GeometryType::default(), GeometryType::Sphere);
    assert_eq!(MaterialType::default(), MaterialType::Lambertian);
}

#[test]
fn material_type_codes() {
    assert_eq!(MaterialType::Lambertian.code(), 0);
    assert_eq!(MaterialType::Metal.code(), 1);
    assert_eq!(MaterialType::Dielectric.code(), 2);
    assert_eq!(MaterialType::Metal.as_std430(), [1, 0, 0, 0]);
    assert_eq!(MaterialType::Dielectric.as_std430(), [2, 0, 0, 0]);
}

fn viewport(x0: u32, y0: u32, x1: u32, y1: u32) -> RendererViewport {
    RendererViewport { start: UVec2 { x: x0, y: y0 }, end: UVec2 { x: x1, y: y1 } }
}

#[test]
fn viewport_size() {
    let v = viewport(240, 0, 1680, 1080);
    assert_eq!(v.get_width(), 1440);
    assert_eq!(v.get_height(), 1080);
    assert_eq!(v.get_size(), UVec2 { x: 1440, y: 1080 });
}

#[test]
fn viewport_of_a_surface() {
    let surface = SurfaceState { width: 800, height: 600, format: TextureFormat::Bgra8UnormSrgb };
    assert_eq!(RendererViewport::init(&surface), Some(viewport(0, 0, 800, 600)));
    let flat = SurfaceState { width: 800, height: 0, format: TextureFormat::Bgra8UnormSrgb };
    assert_eq!(RendererViewport::init(&flat), None);
}

#[test]
fn surface_resize_keeps_the_format() {
    let mut surface = SurfaceState { width: 800, height: 600, format: TextureFormat::Rgba16Float };
    surface.resize(1920, 1080);
    assert_eq!(
        surface,
        SurfaceState { width: 1920, height: 1080, format: TextureFormat::Rgba16Float }
    );
}

#[test]
fn viewport_between_panels() {
    let window = UVec2 { x: 1920, y: 1080 };
    assert_eq!(
        RendererViewport::between_panels(window, 240, 240),
        Some(viewport(240, 0, 1680, 1080))
    );
    assert_eq!(RendererViewport::between_panels(window, 0, 0), Some(viewport(0, 0, 1920, 1080)));
    assert_eq!(RendererViewport::between_panels(window, 960, 960), None);
    assert_eq!(RendererViewport::between_panels(window, 959, 960), Some(viewport(959, 0, 960, 1080)));
    assert_eq!(RendererViewport::between_panels(window, 0, 1920), None);
    assert_eq!(RendererViewport::between_panels(window, 0, 4000), None);
    assert_eq!(RendererViewport::between_panels(window, u32::MAX, u32::MAX), None);
    assert_eq!(RendererViewport::between_panels(UVec2 { x: 10, y: 0 }, 0, 0), None);
}

#[test]
fn viewport_update_reports_a_change_only() {
    let window = UVec2 { x: 1920, y: 1080 };
    let mut v = viewport(0, 0, 1920, 1080);
    assert!(!v.update(window, 0, 0));
    assert!(v.update(window, 240, 200));
    assert_eq!(v, viewport(240, 0, 1720, 1080));
    assert!(!v.update(window, 240, 200));
    assert!(!v.update(window, 1000, 1000));
    assert_eq!(v, viewport(240, 0, 1720, 1080));
}

#[test]
fn viewport_bytes() {
    let v = viewport(0x0102_0304, 0, 1920, 1080);
    let mut expected = Vec::new();
    expected.extend_from_slice(&0x0102_0304u32.to_le_bytes());
    expected.extend_from_slice(&0u32.to_le_bytes());
    expected.extend_from_slice(&1920u32.to_le_bytes());
    expected.extend_from_slice(&1080u32.to_le_bytes());
    assert_eq!(v.as_std430(), expected);
}

#[test]
fn menu_raises_a_resize_when_the_viewport_changes() {
    let mut menu = Menu::init();
    let window = UVec2 { x: 1920, y: 1080 };
    let mut v = viewport(0, 0, 1920, 1080);
    assert_eq!(menu.update(&mut v, window, 240, 240), Some(MenuResizeEvent));
    assert_eq!(v, viewport(240, 0, 1680, 1080));
    assert_eq!(menu.update(&mut v, window, 240, 240), None);
    menu.toggle_fullscreen();
    assert!(menu.settings.fullscreen);
    assert_eq!(menu.update(&mut v, window, 240, 240), Some(MenuResizeEvent));
    assert_eq!(v, viewport(0, 0, 1920, 1080));
    menu.toggle_fullscreen();
    assert!(!menu.settings.fullscreen);
}

#[test]
fn menu_shows_the_shader_error() {
    let mut menu = Menu::init();
    assert_eq!(menu.shader_compile_error, None);
    let error = "expected ';'".to_string();
    menu.show_shader_error(Some(&error));
    assert_eq!(menu.shader_compile_error, Some(error));
    menu.show_shader_error(None);
    assert_eq!(menu.shader_compile_error, None);
}

#[test]
fn paths_that_name_a_file() {
    assert!(names_file("sky.wgsl"));
    assert!(names_file("assets/shaders/sky.wgsl"));
    assert!(names_file("/sky"));
    assert!(names_file("a/.hidden"));
    assert!(names_file("a/..b"));
    assert!(names_file("a/b."));
    assert!(names_file("a/b.."));
    assert!(names_file("..."));
    assert!(!names_file(""));
    assert!(!names_file("dir/"));
    assert!(!names_file("/"));
    assert!(!names_file("."));
    assert!(!names_file(".."));
    assert!(!names_file("a/."));
    assert!(!names_file("a/.."));
    assert!(!names_file("a\\b"));
    assert!(!names_file("\\"));
}

#[test]
fn texts_that_can_be_an_extension() {
    assert!(is_extension("spv"));
    assert!(is_extension("tar.gz"));
    assert!(!is_extension(""));
    assert!(!is_extension("a/b"));
    assert!(!is_extension("a\\b"));
}

#[test]
fn relative_paths() {
    assert!(is_relative(""));
    assert!(is_relative("textures/a.bin"));
    assert!(is_relative("./a"));
    assert!(!is_relative("/"));
    assert!(!is_relative("/etc/a.bin"));
}
