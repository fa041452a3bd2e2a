use render_core::err::RenderError;
use render_core::handle::HandleAllocator;
use render_core::namemap::NameMap;
use render_core::preprocess::resolve_includes;
use render_core::shade::{stage_of, ShaderCache, ShaderStage};

fn shader_files() -> NameMap<String> {
    let mut files: NameMap<String> = NameMap::new();
    files.insert("basic.vert".to_string(), "void main() {}".to_string());
    files.insert("basic.frag".to_string(), "void main() {}".to_string());
    files.insert("lit.frag".to_string(), "#include \"lib.glsl\"\nvoid main() {}".to_string());
    files.insert("lib.glsl".to_string(), "float x;".to_string());
    files.insert("plain.glsl".to_string(), "float y;".to_string());
    files
}

#[test]
fn stage_detection_by_extension() {
    assert!(matches!(stage_of("basic.vert"), Some(ShaderStage::Vertex)));
    assert!(matches!(stage_of("basic.frag"), Some(ShaderStage::Fragment)));
    assert!(matches!(stage_of("sum.comp"), Some(ShaderStage::Compute)));
    assert!(stage_of("basic.glsl").is_none());
    assert!(stage_of("vert").is_none());
}

#[test]
fn load_compiles_once_and_memoizes() {
    let files = shader_files();
    let mut alloc = HandleAllocator::new();
    let mut cache = ShaderCache::new(false);
    let r1 = cache.load(&mut alloc, &files, "basic.vert").unwrap();
    assert_eq!(cache.compiles(), 1);
    let r2 = cache.load(&mut alloc, &files, "basic.vert").unwrap();
    assert_eq!(cache.compiles(), 1);
    assert_eq!(r1.module, r2.module);
    assert!(matches!(r1.stage, ShaderStage::Vertex));
    let entry = cache.get("basic.vert").unwrap();
    assert_eq!(entry.module(), r1.module);
    assert_eq!(entry.source(), "void main() {}\n");
    let stage_desc = entry.descriptor();
    assert_eq!(stage_desc.entry_point, "main");
}

#[test]
fn invalidate_forces_recompile() {
    let files = shader_files();
    let mut alloc = HandleAllocator::new();
    let mut cache = ShaderCache::new(false);
    let r1 = cache.load(&mut alloc, &files, "basic.vert").unwrap();
    cache.invalidate("basic.vert");
    let r2 = cache.load(&mut alloc, &files, "basic.vert").unwrap();
    assert_eq!(cache.compiles(), 2);
    assert_ne!(r1.module, r2.module);
}

#[test]
fn missing_shader_file_is_not_found() {
    let files = shader_files();
    let mut alloc = HandleAllocator::new();
    let mut cache = ShaderCache::new(false);
    let e = cache.load(&mut alloc, &files, "nope.vert").unwrap_err();
    assert!(matches!(e, RenderError::NotFound { name } if name == "nope.vert"));
    assert_eq!(cache.compiles(), 0);
}

#[test]
fn unknown_extension_is_fatal() {
    let files = shader_files();
    let mut alloc = HandleAllocator::new();
    let mut cache = ShaderCache::new(false);
    let e = cache.load(&mut alloc, &files, "plain.glsl").unwrap_err();
    assert!(matches!(e, RenderError::UnknownShaderExtension { name } if name == "plain.glsl"));
}

#[test]
fn include_is_spliced_in_place() {
    let files = shader_files();
    let source = files.get("lit.frag").unwrap().clone();
    let out = resolve_includes(&files, &source, 0).unwrap();
    assert_eq!(out, "float x;\n\nvoid main() {}\n");
}

#[test]
fn include_of_missing_file_fails() {
    let mut files: NameMap<String> = NameMap::new();
    files.insert("a.vert".to_string(), "#include \"gone.glsl\"".to_string());
    let source = files.get("a.vert").unwrap().clone();
    let e = resolve_includes(&files, &source, 0).unwrap_err();
    assert!(matches!(e, RenderError::NotFound { name } if name == "gone.glsl"));
}

#[test]
fn include_chain_at_the_bound_resolves() {
    let mut files: NameMap<String> = NameMap::new();
    files.insert("f1.glsl".to_string(), "#include \"f2.glsl\"".to_string());
    files.insert("f2.glsl".to_string(), "#include \"f3.glsl\"".to_string());
    files.insert("f3.glsl".to_string(), "#include \"f4.glsl\"".to_string());
    files.insert("f4.glsl".to_string(), "#include \"f5.glsl\"".to_string());
    files.insert("f5.glsl".to_string(), "deep".to_string());
    let out = resolve_includes(&files, "#include \"f1.glsl\"", 0).unwrap();
    assert_eq!(out, "deep\n\n\n\n\n\n");
}

#[test]
fn include_chain_past_the_bound_fails_with_depth_error() {
    let mut files: NameMap<String> = NameMap::new();
    files.insert("f1.glsl".to_string(), "#include \"f2.glsl\"".to_string());
    files.insert("f2.glsl".to_string(), "#include \"f3.glsl\"".to_string());
    files.insert("f3.glsl".to_string(), "#include \"f4.glsl\"".to_string());
    files.insert("f4.glsl".to_string(), "#include \"f5.glsl\"".to_string());
    files.insert("f5.glsl".to_string(), "#include \"f6.glsl\"".to_string());
    files.insert("f6.glsl".to_string(), "too deep".to_string());
    let e = resolve_includes(&files, "#include \"f1.glsl\"", 0).unwrap_err();
    assert!(matches!(e, RenderError::IncludeDepthExceeded { name } if name == "f6.glsl"));
}

#[test]
fn self_including_shader_terminates_with_depth_error() {
    let mut files: NameMap<String> = NameMap::new();
    files.insert("loop.glsl".to_string(), "#include \"loop.glsl\"".to_string());
    let source = files.get("loop.glsl").unwrap().clone();
    let e = resolve_includes(&files, &source, 0).unwrap_err();
    assert!(matches!(e, RenderError::IncludeDepthExceeded { name } if name == "loop.glsl"));
}
