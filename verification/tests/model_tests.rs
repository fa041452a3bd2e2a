use render_core::err::RenderError;
use render_core::handle::HandleAllocator;
use render_core::namemap::NameMap;
use render_core::models::{ModelCache, ModelName};

const TORUS_OBJ: &str = "o Torus\n\
v 0 0 0\nv 1 0 0\nv 0 1 0\n\
vt 0 0\nvt 1 0\nvt 0 1\n\
vn 0 0 1\n\
f 1/1/1 2/2/1 3/3/1\n";

const PAIR_OBJ: &str = "o A\n\
v 0 0 0\nv 1 0 0\nv 0 1 0\n\
f 1 2 3\n\
o B\n\
v 0 0 1\nv 1 0 1\nv 0 1 1\n\
f 4 5 6\n";

fn model_files() -> NameMap<String> {
    let mut files: NameMap<String> = NameMap::new();
    files.insert("torus.obj".to_string(), TORUS_OBJ.to_string());
    files.insert("pair.obj".to_string(), PAIR_OBJ.to_string());
    files
}

fn name(file: &str, model: &str) -> ModelName {
    ModelName { file: file.to_string(), name: model.to_string() }
}

#[test]
fn load_registers_mesh_with_attributes() {
    let files = model_files();
    let mut alloc = HandleAllocator::new();
    let mut cache = ModelCache::new();
    let m = cache.load(&mut alloc, &files, &name("torus.obj", "Torus")).unwrap();
    assert_eq!(m.vertex_ct, 3);
    assert!(m.normals.is_some());
    assert!(m.texcoords.is_some());
    assert_ne!(m.positions, m.indices);
    assert!(cache.file_loaded("torus.obj"));
}

#[test]
fn one_file_load_registers_every_contained_model() {
    let files = model_files();
    let mut alloc = HandleAllocator::new();
    let mut cache = ModelCache::new();
    let a = cache.load(&mut alloc, &files, &name("pair.obj", "A")).unwrap();
    assert!(cache.get("A").is_some());
    assert!(cache.get("B").is_some());
    assert!(cache.file_loaded("pair.obj"));
    assert_eq!(cache.loads(), 1);
    let b = cache.load(&mut alloc, &files, &name("pair.obj", "B")).unwrap();
    assert_eq!(cache.loads(), 1);
    assert_eq!(a.vertex_ct, 3);
    assert_eq!(b.vertex_ct, 3);
    assert!(a.normals.is_none());
    assert!(a.texcoords.is_none());
}

#[test]
fn load_parses_once_and_memoizes() {
    let files = model_files();
    let mut alloc = HandleAllocator::new();
    let mut cache = ModelCache::new();
    let m1 = cache.load(&mut alloc, &files, &name("torus.obj", "Torus")).unwrap();
    let m2 = cache.load(&mut alloc, &files, &name("torus.obj", "Torus")).unwrap();
    assert_eq!(cache.loads(), 1);
    assert_eq!(m1, m2);
}

#[test]
fn missing_model_in_loaded_file_is_fatal() {
    let files = model_files();
    let mut alloc = HandleAllocator::new();
    let mut cache = ModelCache::new();
    let e = cache.load(&mut alloc, &files, &name("pair.obj", "C")).unwrap_err();
    assert!(matches!(e, RenderError::ModelMissing { file, name }
        if file == "pair.obj" && name == "C"));
    assert!(cache.file_loaded("pair.obj"));
    let e2 = cache.load(&mut alloc, &files, &name("pair.obj", "C")).unwrap_err();
    assert!(matches!(e2, RenderError::ModelMissing { .. }));
}

#[test]
fn missing_model_file_is_not_found() {
    let files = model_files();
    let mut alloc = HandleAllocator::new();
    let mut cache = ModelCache::new();
    let e = cache.load(&mut alloc, &files, &name("gone.obj", "X")).unwrap_err();
    assert!(matches!(e, RenderError::NotFound { name } if name == "gone.obj"));
}

#[test]
fn invalidate_forces_fresh_parse() {
    let files = model_files();
    let mut alloc = HandleAllocator::new();
    let mut cache = ModelCache::new();
    cache.load(&mut alloc, &files, &name("torus.obj", "Torus")).unwrap();
    cache.invalidate(&name("torus.obj", "Torus"));
    assert!(!cache.file_loaded("torus.obj"));
    assert!(cache.get("Torus").is_none());
    cache.load(&mut alloc, &files, &name("torus.obj", "Torus")).unwrap();
    assert_eq!(cache.loads(), 2);
}

#[test]
fn invalidate_drops_only_that_files_models() {
    let files = model_files();
    let mut alloc = HandleAllocator::new();
    let mut cache = ModelCache::new();
    cache.load(&mut alloc, &files, &name("pair.obj", "A")).unwrap();
    cache.load(&mut alloc, &files, &name("torus.obj", "Torus")).unwrap();
    cache.invalidate(&name("pair.obj", "A"));
    assert!(cache.get("A").is_none());
    assert!(cache.get("B").is_none());
    assert!(cache.get("Torus").is_some());
    assert!(cache.file_loaded("torus.obj"));
    assert!(!cache.file_loaded("pair.obj"));
}

#[test]
fn relative_face_indices_are_rejected() {
    let mut files: NameMap<String> = NameMap::new();
    files.insert(
        "rel.obj".to_string(),
        "o Rel\nv 0 0 0\nvt 0 0\nf 1/-3 1/-3 1/-3\n".to_string(),
    );
    let mut alloc = HandleAllocator::new();
    let mut cache = ModelCache::new();
    let e = cache.load(&mut alloc, &files, &name("rel.obj", "Rel")).unwrap_err();
    assert!(matches!(e, RenderError::ParseFailed { name } if name == "rel.obj"));
    assert_eq!(cache.loads(), 0);
}

#[test]
fn oversized_face_indices_are_rejected() {
    let mut files: NameMap<String> = NameMap::new();
    files.insert(
        "big.obj".to_string(),
        "o Big\nv 0 0 0\nvt 0 0\nf 1/9223372036854775806 1/1 1/1\n".to_string(),
    );
    let mut alloc = HandleAllocator::new();
    let mut cache = ModelCache::new();
    let e = cache.load(&mut alloc, &files, &name("big.obj", "Big")).unwrap_err();
    assert!(matches!(e, RenderError::ParseFailed { name } if name == "big.obj"));
}

#[test]
fn negative_coordinates_are_still_parsed() {
    let mut files: NameMap<String> = NameMap::new();
    files.insert(
        "neg.obj".to_string(),
        "o Neg\nv -1 -2.5 0\nv 1 0 0\nv 0 1 0\nf 1 2 3\n".to_string(),
    );
    let mut alloc = HandleAllocator::new();
    let mut cache = ModelCache::new();
    let m = cache.load(&mut alloc, &files, &name("neg.obj", "Neg")).unwrap();
    assert_eq!(m.vertex_ct, 3);
}

#[test]
fn clear_empties_markers_and_entries() {
    let files = model_files();
    let mut alloc = HandleAllocator::new();
    let mut cache = ModelCache::new();
    cache.load(&mut alloc, &files, &name("pair.obj", "A")).unwrap();
    cache.clear();
    assert!(!cache.file_loaded("pair.obj"));
    assert!(cache.get("A").is_none());
    assert!(cache.get("B").is_none());
}
