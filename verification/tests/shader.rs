use goldenrod::render::preprocess::{
    already_seen, Directive, PreprocessError, Preprocessor, DIRECTIVE_PATTERN,
};
use goldenrod::render::shader::{
    load_error, recompile_shaders, spirv_framed, Shader, ShaderBackend, ShaderData, ShaderError,
    ShaderModuleDescriptor, ShaderSource, ShaderState, SPIRV_MAGIC,
};
use goldenrod::render::GpuContext;

fn spirv_bytes_le(words: &[u32]) -> Vec<u8> {
    let mut bytes = Vec::new();
    for word in words {
        bytes.extend_from_slice(&word.to_le_bytes());
    }
    bytes
}

fn spirv_bytes_be(words: &[u32]) -> Vec<u8> {
    let mut bytes = Vec::new();
    for word in words {
        bytes.extend_from_slice(&word.to_be_bytes());
    }
    bytes
}

#[test]
fn load_wgsl_names_the_shader_by_its_file() {
    let source = ShaderSource::load_wgsl("assets/shaders/sky.wgsl", Some("fn main() {}".to_string()));
    assert_eq!(source.name(), "sky.wgsl");
    assert_eq!(source.path(), "assets/shaders/sky.wgsl");
    assert_eq!(source.backend(), ShaderBackend::Wgsl);
    assert!(!source.is_fallback());
    assert_eq!(source.source_str(), Some("fn main() {}"));
}

#[test]
fn unreadable_file_is_a_fallback() {
    let source = ShaderSource::load_wgsl("sky.wgsl", None);
    assert!(source.is_fallback());
    assert_eq!(source.source_str(), None);
}

#[test]
fn a_binary_source_is_never_a_fallback() {
    let binary = ShaderSource::load_spirv("sky.spv", Some(spirv_bytes_le(&[SPIRV_MAGIC]))).unwrap();
    assert!(!binary.is_fallback());
    assert_eq!(binary.backend(), ShaderBackend::Spirv);
    assert_eq!(binary.name(), "sky.spv");
    assert_eq!(binary.path(), "sky.spv");
}

#[test]
fn reload_takes_the_new_read() {
    let mut source = ShaderSource::load_wgsl("sky.wgsl", None);
    assert_eq!(source.reload(Some(ShaderData::Text("a".to_string()))), Ok(()));
    assert!(!source.is_fallback());
    assert_eq!(source.source_str(), Some("a"));
    assert_eq!(source.reload(None), Ok(()));
    assert!(source.is_fallback());
    assert_eq!(source.name(), "sky.wgsl");
}

#[test]
fn reload_in_the_wrong_form_holds_nothing() {
    let mut source = ShaderSource::load_wgsl("sky.wgsl", Some("a".to_string()));
    assert_eq!(source.reload(Some(ShaderData::Binary(vec![1, 2, 3, 4]))), Ok(()));
    assert!(source.is_fallback());
}

#[test]
fn reload_that_a_binary_cannot_take_leaves_it_as_it_was() {
    let words = [SPIRV_MAGIC, 9];
    let mut binary = ShaderSource::load_spirv("sky.spv", Some(spirv_bytes_le(&words))).unwrap();
    assert_eq!(
        binary.reload(Some(ShaderData::Text("a".to_string()))),
        Err(ShaderError::UnreadableBinary)
    );
    assert_eq!(binary.source_words(), words.to_vec());
    assert_eq!(binary.reload(None), Err(ShaderError::UnreadableBinary));
    assert_eq!(binary.source_words(), words.to_vec());
    assert_eq!(
        binary.reload(Some(ShaderData::Binary(vec![1, 2, 3, 4]))),
        Err(ShaderError::MalformedBinary)
    );
    assert_eq!(binary.source_words(), words.to_vec());
    assert_eq!(
        binary.reload(Some(ShaderData::Binary(spirv_bytes_be(&[SPIRV_MAGIC, 3])))),
        Ok(())
    );
    assert_eq!(binary.source_words(), vec![SPIRV_MAGIC, 3]);
    assert!(!binary.is_fallback());
}

#[test]
fn load_error_of_each_read() {
    assert_eq!(load_error(ShaderBackend::Wgsl, &None), None);
    assert_eq!(load_error(ShaderBackend::Wgsl, &Some(ShaderData::Binary(vec![1]))), None);
    assert_eq!(load_error(ShaderBackend::Wgsl, &Some(ShaderData::Text("a".to_string()))), None);
    assert_eq!(load_error(ShaderBackend::Spirv, &None), Some(ShaderError::UnreadableBinary));
    assert_eq!(
        load_error(ShaderBackend::Spirv, &Some(ShaderData::Text("a".to_string()))),
        Some(ShaderError::UnreadableBinary)
    );
    assert_eq!(
        load_error(ShaderBackend::Spirv, &Some(ShaderData::Binary(vec![1, 2, 3]))),
        Some(ShaderError::MalformedBinary)
    );
    assert_eq!(
        load_error(ShaderBackend::Spirv, &Some(ShaderData::Binary(spirv_bytes_le(&[SPIRV_MAGIC])))),
        None
    );
}

#[test]
fn make_fallback_gives_up_the_source() {
    let mut source = ShaderSource::load_wgsl("sky.wgsl", Some("a".to_string()));
    source.make_fallback();
    assert!(source.is_fallback());
    assert_eq!(source.backend(), ShaderBackend::Wgsl);
    assert_eq!(source.name(), "sky.wgsl");
}

#[test]
fn spirv_framing() {
    assert!(spirv_framed(&spirv_bytes_le(&[SPIRV_MAGIC, 1, 2])));
    assert!(spirv_framed(&spirv_bytes_be(&[SPIRV_MAGIC, 1, 2])));
    assert!(!spirv_framed(&[]));
    assert!(!spirv_framed(&[0x03, 0x02, 0x23]));
    assert!(!spirv_framed(&[0x03, 0x02, 0x23, 0x07, 0x00]));
    assert!(!spirv_framed(&[0, 0, 0, 0]));
    assert!(!spirv_framed(&spirv_bytes_le(&[1, SPIRV_MAGIC])));
}

#[test]
fn source_words_follow_the_byte_order_of_the_file() {
    let words = [SPIRV_MAGIC, 0x0001_0300, 0xdead_beef, 7];
    let le = ShaderSource::load_spirv("a.spv", Some(spirv_bytes_le(&words))).unwrap();
    assert_eq!(le.source_words(), words.to_vec());
    let be = ShaderSource::load_spirv("a.spv", Some(spirv_bytes_be(&words))).unwrap();
    assert_eq!(be.source_words(), words.to_vec());
}

#[test]
fn descriptor_of_each_kind_of_source() {
    let text = ShaderSource::load_wgsl("dir/a.wgsl", Some("code".to_string()));
    match text.descriptor() {
        ShaderModuleDescriptor::Wgsl { label, source } => {
            assert_eq!(label, "a.wgsl");
            assert_eq!(source, "code");
        }
        other => panic!("unexpected descriptor {:?}", other),
    }
    let missing = ShaderSource::load_wgsl("dir/a.wgsl", None);
    match missing.descriptor() {
        ShaderModuleDescriptor::Fallback { label } => assert_eq!(label, "a.wgsl"),
        other => panic!("unexpected descriptor {:?}", other),
    }
    let binary =
        ShaderSource::load_spirv("dir/a.spv", Some(spirv_bytes_le(&[SPIRV_MAGIC, 5]))).unwrap();
    match binary.descriptor() {
        ShaderModuleDescriptor::SpirV { label, words } => {
            assert_eq!(label, "a.spv");
            assert_eq!(words, vec![SPIRV_MAGIC, 5]);
        }
        other => panic!("unexpected descriptor {:?}", other),
    }
    match text.fallback_descriptor() {
        ShaderModuleDescriptor::Fallback { label } => assert_eq!(label, "a.wgsl"),
        other => panic!("unexpected descriptor {:?}", other),
    }
}

#[test]
fn unreadable_binary_is_a_load_error() {
    let binary = ShaderSource::load_spirv("dir/a.spv", None);
    assert_eq!(binary.err(), Some(ShaderError::UnreadableBinary));
}

#[test]
fn malformed_binary_is_a_load_error() {
    let binary = ShaderSource::load_spirv("dir/a.spv", Some(vec![0, 1, 2, 3]));
    assert_eq!(binary.err(), Some(ShaderError::MalformedBinary));
    let odd = ShaderSource::load_spirv("dir/a.spv", Some(vec![0x03, 0x02, 0x23, 0x07, 0x00]));
    assert_eq!(odd.err(), Some(ShaderError::MalformedBinary));
    let empty = ShaderSource::load_spirv("dir/a.spv", Some(Vec::new()));
    assert_eq!(empty.err(), Some(ShaderError::MalformedBinary));
}

#[test]
fn compile_without_error_ends_compiled() {
    let mut gpu = GpuContext::new(true);
    let mut shader = Shader::new(ShaderSource::load_wgsl("a.wgsl", Some("code".to_string())));
    assert_eq!(shader.state(), ShaderState::Loaded);
    assert!(!shader.is_ready());
    let _ = shader.begin_compile(&mut gpu);
    assert_eq!(shader.state(), ShaderState::Compiling);
    assert_eq!(shader.module(), 0);
    assert!(shader.finish_compile(&mut gpu, None).is_none());
    assert_eq!(shader.state(), ShaderState::Compiled);
    assert!(shader.is_ready());
    assert!(!shader.source().is_fallback());
    assert_eq!(shader.module(), 0);
    assert_eq!(shader.error(), None);
    assert_eq!(gpu.remaining(), u64::MAX - 1);
}

#[test]
fn compile_with_error_falls_back() {
    let mut gpu = GpuContext::new(true);
    let mut shader = Shader::new(ShaderSource::load_wgsl("a.wgsl", Some("broken".to_string())));
    let _ = shader.begin_compile(&mut gpu);
    let fallback = shader.finish_compile(&mut gpu, Some("expected ';'".to_string()));
    match fallback {
        Some(ShaderModuleDescriptor::Fallback { label }) => assert_eq!(label, "a.wgsl"),
        other => panic!("unexpected descriptor {:?}", other),
    }
    assert_eq!(shader.state(), ShaderState::Fallback);
    assert!(shader.is_ready());
    assert!(shader.source().is_fallback());
    assert_eq!(shader.module(), 1);
    assert_eq!(shader.error(), Some(&"expected ';'".to_string()));
}

#[test]
fn unreadable_text_compiles_the_fallback() {
    let mut gpu = GpuContext::new(true);
    let mut shader = Shader::new(ShaderSource::load_wgsl("a.wgsl", None));
    match shader.begin_compile(&mut gpu) {
        ShaderModuleDescriptor::Fallback { .. } => {}
        other => panic!("unexpected descriptor {:?}", other),
    }
    assert!(shader.finish_compile(&mut gpu, None).is_none());
    assert_eq!(shader.state(), ShaderState::Fallback);
    assert_eq!(shader.error(), None);
}

#[test]
fn binary_is_compiled_without_validation() {
    let mut gpu = GpuContext::new(true);
    let mut shader = Shader::new(
        ShaderSource::load_spirv("a.spv", Some(spirv_bytes_le(&[SPIRV_MAGIC]))).unwrap(),
    );
    match shader.begin_compile(&mut gpu) {
        ShaderModuleDescriptor::SpirV { label, words } => {
            assert_eq!(label, "a.spv");
            assert_eq!(words, vec![SPIRV_MAGIC]);
        }
        other => panic!("unexpected descriptor {:?}", other),
    }
    assert_eq!(shader.state(), ShaderState::Compiled);
    assert!(shader.is_ready());
    assert_eq!(shader.module(), 0);
    assert_eq!(gpu.remaining(), u64::MAX - 1);
}

#[test]
fn unreadable_binary_leaves_the_shader_as_it_was() {
    let mut gpu = GpuContext::new(true);
    let mut shader = Shader::new(
        ShaderSource::load_spirv("a.spv", Some(spirv_bytes_le(&[SPIRV_MAGIC, 1]))).unwrap(),
    );
    let _ = shader.begin_compile(&mut gpu);
    assert_eq!(shader.recreate(&mut gpu, None).err(), Some(ShaderError::UnreadableBinary));
    assert_eq!(
        shader.recreate(&mut gpu, Some(ShaderData::Binary(vec![1, 2]))).err(),
        Some(ShaderError::MalformedBinary)
    );
    assert_eq!(shader.state(), ShaderState::Compiled);
    assert_eq!(shader.module(), 0);
    assert_eq!(shader.source().source_words(), vec![SPIRV_MAGIC, 1]);
    assert_eq!(gpu.remaining(), u64::MAX - 1);
}

#[test]
fn recreate_after_a_failure_clears_the_fallback() {
    let mut gpu = GpuContext::new(true);
    let mut shader = Shader::new(ShaderSource::load_wgsl("a.wgsl", Some("broken".to_string())));
    let _ = shader.begin_compile(&mut gpu);
    let _ = shader.finish_compile(&mut gpu, Some("error".to_string()));
    assert!(shader.source().is_fallback());
    assert!(shader.recreate(&mut gpu, Some(ShaderData::Text("fixed".to_string()))).is_ok());
    assert_eq!(shader.state(), ShaderState::Compiling);
    assert_eq!(shader.error(), None);
    assert!(shader.finish_compile(&mut gpu, None).is_none());
    assert_eq!(shader.state(), ShaderState::Compiled);
    assert!(!shader.source().is_fallback());
    assert_eq!(shader.module(), 2);
}

#[test]
fn recompile_only_on_an_event() {
    assert!(!recompile_shaders(0));
    assert!(recompile_shaders(1));
    assert!(recompile_shaders(5));
}

#[test]
fn pending_finds_the_first_directive() {
    let pre = Preprocessor::new("a\n#include lib/math.wgsl\nb\n#include other.wgsl\n".to_string());
    let directive = pre.pending().unwrap().unwrap();
    assert_eq!(directive.path, "lib/math.wgsl");
    assert!(!directive.repeated);
}

#[test]
fn pending_of_a_source_without_directive() {
    let pre = Preprocessor::new("fn main() {}\n// #includes nothing\n#include\n".to_string());
    assert!(pre.pending().unwrap().is_none());
}

#[test]
fn resolve_splices_the_file_in() {
    let mut pre = Preprocessor::new("a\n#include lib/math.wgsl\nb\n".to_string());
    assert_eq!(pre.resolve("fn sq() {}"), Ok(true));
    assert_eq!(pre.source(), "a\nfn sq() {}\nb\n");
    assert_eq!(pre.resolve("unused"), Ok(false));
    assert_eq!(pre.finish(), "a\nfn sq() {}\nb\n");
}

#[test]
fn resolve_drops_a_repeated_directive() {
    let mut pre = Preprocessor::new("#include m.wgsl\n#include m.wgsl\nend".to_string());
    assert_eq!(pre.resolve("M"), Ok(true));
    let directive = pre.pending().unwrap().unwrap();
    assert_eq!(directive.path, "m.wgsl");
    assert!(directive.repeated);
    assert_eq!(pre.resolve("M"), Ok(true));
    assert_eq!(pre.source(), "M\n\nend");
    assert!(pre.pending().unwrap().is_none());
}

#[test]
fn resolve_follows_directives_inside_spliced_files() {
    let mut pre = Preprocessor::new("#include a.wgsl\n".to_string());
    assert_eq!(pre.resolve("#include b.wgsl\nA"), Ok(true));
    assert_eq!(pre.pending().unwrap().unwrap().path, "b.wgsl");
    assert_eq!(pre.resolve("B"), Ok(true));
    assert_eq!(pre.finish(), "B\nA\n");
}

#[test]
fn classify_marks_what_was_seen() {
    let mut pre = Preprocessor::new("#include a.wgsl".to_string());
    assert!(pre.classify(None).is_none());
    assert!(!pre.classify(Some("a.wgsl".to_string())).unwrap().repeated);
    assert_eq!(pre.resolve(""), Ok(true));
    assert!(pre.classify(Some("a.wgsl".to_string())).unwrap().repeated);
    assert!(!pre.classify(Some("b.wgsl".to_string())).unwrap().repeated);
}

#[test]
fn already_seen_compares_whole_paths() {
    let seen = vec!["a/b.wgsl".to_string(), "c.wgsl".to_string()];
    assert!(already_seen(&seen, "a/b.wgsl"));
    assert!(already_seen(&seen, "c.wgsl"));
    assert!(!already_seen(&seen, "b.wgsl"));
    assert!(!already_seen(&seen, "a/b.wgs"));
    assert!(!already_seen(&Vec::new(), ""));
}

#[test]
fn directive_pattern_is_the_keyword_and_a_path() {
    assert_eq!(DIRECTIVE_PATTERN, "#include ([\\w/\\.]+)");
}

#[test]
fn a_pattern_that_is_no_regular_expression_stops_preprocessing() {
    let mut pre = Preprocessor::with_pattern("#include a".to_string(), "#include ([".to_string());
    assert_eq!(pre.pending().err(), Some(PreprocessError::Engine));
    assert_eq!(pre.resolve("A"), Err(PreprocessError::Engine));
    assert_eq!(pre.source(), "#include a");
}

#[test]
fn directives_of_another_pattern() {
    let mut pre = Preprocessor::with_pattern(
        "a\n@import \"x.wgsl\"\nb".to_string(),
        "@import \"([^\"]+)\"".to_string(),
    );
    assert_eq!(pre.pending().unwrap().unwrap().path, "x.wgsl");
    assert_eq!(pre.resolve("X"), Ok(true));
    assert_eq!(pre.source(), "a\nX\nb");
}

#[test]
fn a_pattern_without_a_group_names_no_file() {
    let pre = Preprocessor::with_pattern("#include a".to_string(), "#include".to_string());
    assert!(pre.pending().unwrap().is_none());
}

#[test]
fn spliced_files_are_kept_once_each() {
    let mut pre = Preprocessor::new("#include a.wgsl\n#include b.wgsl\n#include a.wgsl\n".to_string());
    assert!(pre.seen().is_empty());
    assert_eq!(pre.resolve("A"), Ok(true));
    assert_eq!(pre.seen(), &vec!["a.wgsl".to_string()]);
    assert_eq!(pre.resolve("B"), Ok(true));
    assert_eq!(pre.seen(), &vec!["a.wgsl".to_string(), "b.wgsl".to_string()]);
    assert_eq!(pre.resolve("A"), Ok(true));
    assert_eq!(pre.seen(), &vec!["a.wgsl".to_string(), "b.wgsl".to_string()]);
    assert_eq!(pre.resolve("A"), Ok(false));
    assert_eq!(pre.finish(), "A\nB\n\n");
}

#[test]
fn splice_keeps_a_file_once_whatever_the_directive_says() {
    let mut pre = Preprocessor::new("x".to_string());
    pre.splice(Directive { path: "a.wgsl".to_string(), repeated: false }, "y".to_string());
    pre.splice(Directive { path: "a.wgsl".to_string(), repeated: false }, "z".to_string());
    pre.splice(Directive { path: "b.wgsl".to_string(), repeated: true }, "w".to_string());
    assert_eq!(pre.seen(), &vec!["a.wgsl".to_string()]);
    assert_eq!(pre.source(), "w");
}
