use vstd::prelude::*;
use crate::err::RenderError;
use crate::handle::HandleAllocator;
use crate::models::{listed_name, manifest_matches, mesh_named, model_load_post,
    models_registered, spec_model_build, MeshCounts, ModelCache, ModelIssue, ModelName,
    ModelRef};
use crate::passes::{main_handles_ge, main_handles_lt, BasicPass, MainPass, PrePass};
use crate::preprocess::{include_pattern, line_len, lemma_line_len_at, spec_resolve,
    ShadeIssue, MAX_INCLUDE_DEPTH};
use crate::resource::{AnyAttachmentDescriptor, SwapchainDescriptor};
use crate::shade::{shader_load_post, spec_ref, spec_shader_build, ShaderCache, ShaderRef};
use crate::textures::{spec_texture_ref, texture_load_post, TextureCache, TextureRef};
use crate::Scale;

verus! {

/// Cache idempotence for shaders: when a load succeeds, an immediately
/// following load of the same name returns the same module identity and
/// performs no further compilation, leaving cache and allocator untouched.
pub proof fn lemma_shader_load_idempotent(
    c0: ShaderCache, a0: HandleAllocator, files: Map<Seq<char>, String>, name: Seq<char>,
    c1: ShaderCache, a1: HandleAllocator, r1: ShaderRef,
    c2: ShaderCache, a2: HandleAllocator, r2: Result<ShaderRef, RenderError>,
)
    requires
        shader_load_post(c0, a0, files, name, c1, a1, Ok(r1)),
        shader_load_post(c1, a1, files, name, c2, a2, r2),
    ensures
        r2 == Ok::<ShaderRef, RenderError>(r1),
        c2.entries() == c1.entries(),
        c2.spec_compiles() == c1.spec_compiles(),
        a2 == a1,
{
    if c0.entries().contains_key(name) {
        assert(r1 == spec_ref(c0.entries()[name]));
    } else {
        match spec_shader_build(files, name) {
            Ok((stage, src)) => {
                assert(c1.entries().contains_key(name));
                assert(r1 == spec_ref(c1.entries()[name]));
            },
            Err(_) => {
                assert(false);
            },
        }
    }
}

/// Cache invalidation for shaders: after an entry is dropped, the next
/// successful load of that name compiles afresh — the compile count rises by
/// one and the returned module is a newly issued object.
pub proof fn lemma_shader_invalidate_recompiles(
    c0: ShaderCache, c1: ShaderCache,
    a1: HandleAllocator, files: Map<Seq<char>, String>, name: Seq<char>,
    c2: ShaderCache, a2: HandleAllocator, sref: ShaderRef,
)
    requires
        c1.entries() == c0.entries().remove(name),
        shader_load_post(c1, a1, files, name, c2, a2, Ok(sref)),
    ensures
        c2.spec_compiles() == c1.spec_compiles() + 1,
        sref.module == a1.spec_next(),
{
    assert(!c1.entries().contains_key(name));
    match spec_shader_build(files, name) {
        Ok((stage, src)) => {},
        Err(_) => {
            assert(false);
        },
    }
}

/// Cache idempotence for textures: when a load succeeds, an immediately
/// following load of the same name returns the same texture and sampler
/// identities and performs no further decode or upload.
pub proof fn lemma_texture_load_idempotent(
    c0: TextureCache, a0: HandleAllocator, files: Map<Seq<char>, Vec<u8>>, name: Seq<char>,
    c1: TextureCache, a1: HandleAllocator, r1: TextureRef,
    c2: TextureCache, a2: HandleAllocator, r2: Result<TextureRef, RenderError>,
)
    requires
        texture_load_post(c0, a0, files, name, c1, a1, Ok(r1)),
        texture_load_post(c1, a1, files, name, c2, a2, r2),
    ensures
        r2 == Ok::<TextureRef, RenderError>(r1),
        c2.entries() == c1.entries(),
        c2.spec_loads() == c1.spec_loads(),
        a2 == a1,
{
    if c0.entries().contains_key(name) {
        assert(r1 == spec_texture_ref(c0.entries()[name]));
    } else {
        match crate::textures::spec_texture_build(files, name) {
            Ok((d, format, bpp)) => {
                assert(c1.entries().contains_key(name));
                assert(r1 == spec_texture_ref(c1.entries()[name]));
            },
            Err(_) => {
                assert(false);
            },
        }
    }
}

/// Cache invalidation for textures: after an entry is dropped, the next
/// successful load of that name decodes and uploads afresh — the load count
/// rises by one and the returned texture is a newly issued object.
pub proof fn lemma_texture_invalidate_reloads(
    c0: TextureCache, c1: TextureCache,
    a1: HandleAllocator, files: Map<Seq<char>, Vec<u8>>, name: Seq<char>,
    c2: TextureCache, a2: HandleAllocator, tref: TextureRef,
)
    requires
        c1.entries() == c0.entries().remove(name),
        texture_load_post(c1, a1, files, name, c2, a2, Ok(tref)),
    ensures
        c2.spec_loads() == c1.spec_loads() + 1,
        tref.texture == a1.spec_next(),
{
    assert(!c1.entries().contains_key(name));
    match crate::textures::spec_texture_build(files, name) {
        Ok(_) => {},
        Err(_) => {
            assert(false);
        },
    }
}

/// Cache invalidation for models: after a file's loaded marker is dropped,
/// the next successful load of a model from that file parses the file
/// afresh — the load count rises by one.
pub proof fn lemma_model_invalidate_reparses(
    m0: ModelCache, m1: ModelCache,
    a1: HandleAllocator, files: Map<Seq<char>, String>, name: ModelName,
    m2: ModelCache, a2: HandleAllocator, mr: ModelRef,
)
    requires
        m1.known_files() == m0.known_files().remove(name.file@),
        m1.spec_loads() == m0.spec_loads(),
        model_load_post(m1, a1, files, name, m2, a2, Ok(mr)),
    ensures
        m2.spec_loads() == m0.spec_loads() + 1,
        m2.known_files().contains(name.file@),
{
    assert(!m1.known_files().contains(name.file@));
    match spec_model_build(files, name.file@) {
        Ok(s) => {
            if a1.can_issue(4 * s.len() as int) {
            } else {
                assert(false);
            }
        },
        Err(_) => {
            assert(false);
        },
    }
}

/// Invalidation drops a whole file: after a fresh file load and then an
/// invalidation of that file whose outcome removed every name the load
/// listed, no model the file contained is retrievable any more — no stale
/// model of the file survives.
pub proof fn lemma_invalidate_drops_files_models(
    m0: ModelCache, a0: HandleAllocator, files: Map<Seq<char>, String>, name: ModelName,
    m1: ModelCache, a1: HandleAllocator, mr: ModelRef, m2: ModelCache,
    s: Seq<(Seq<char>, MeshCounts)>, k: Seq<char>,
)
    requires
        !m0.known_files().contains(name.file@),
        model_load_post(m0, a0, files, name, m1, a1, Ok(mr)),
        spec_model_build(files, name.file@) == Ok::<Seq<(Seq<char>, MeshCounts)>, ModelIssue>(s),
        mesh_named(s, k),
        forall|k2: Seq<char>| #![trigger listed_name(m1.manifest()[name.file@], k2)]
            listed_name(m1.manifest()[name.file@], k2) ==> !m2.entries().contains_key(k2),
    ensures
        !m2.entries().contains_key(k),
{
    if a0.can_issue(4 * s.len() as int) {
        let listed = m1.manifest()[name.file@];
        assert(manifest_matches(listed, s));
        let j = choose|j: int| 0 <= j < s.len() && s[j].0 == k;
        assert(listed@[j]@ == s[j].0);
        assert(listed_name(listed, k)) by {
            assert(0 <= j < listed@.len() && listed@[j]@ == k);
        }
    } else {
        assert(false);
    }
}

/// Cache idempotence for models: when a load succeeds, an immediately
/// following load of the same file and model name returns the same buffer
/// identities and performs no further parse or upload.
pub proof fn lemma_model_load_idempotent(
    m0: ModelCache, a0: HandleAllocator, files: Map<Seq<char>, String>, name: ModelName,
    m1: ModelCache, a1: HandleAllocator, r1: ModelRef,
    m2: ModelCache, a2: HandleAllocator, r2: Result<ModelRef, RenderError>,
)
    requires
        model_load_post(m0, a0, files, name, m1, a1, Ok(r1)),
        model_load_post(m1, a1, files, name, m2, a2, r2),
    ensures
        r2 == Ok::<ModelRef, RenderError>(r1),
        m2 == m1,
        a2 == a1,
{
    if m0.known_files().contains(name.file@) {
    } else {
        match spec_model_build(files, name.file@) {
            Ok(s) => {
                if a0.can_issue(4 * s.len() as int) {
                    assert(m1.known_files().contains(name.file@));
                } else {
                    assert(false);
                }
            },
            Err(_) => {
                assert(false);
            },
        }
    }
}

/// Model multi-entry atomicity: one successful load of a model file makes
/// every model the file contains retrievable, and marks the file loaded, in
/// the same step. No name of the file is registered without the others.
pub proof fn lemma_model_file_load_atomic(
    m0: ModelCache, a0: HandleAllocator, files: Map<Seq<char>, String>, name: ModelName,
    m1: ModelCache, a1: HandleAllocator, mr: ModelRef,
    s: Seq<(Seq<char>, MeshCounts)>, other: Seq<char>,
)
    requires
        !m0.known_files().contains(name.file@),
        model_load_post(m0, a0, files, name, m1, a1, Ok(mr)),
        spec_model_build(files, name.file@) == Ok::<Seq<(Seq<char>, MeshCounts)>, ModelIssue>(s),
        mesh_named(s, other),
    ensures
        m1.entries().contains_key(other),
        m1.known_files().contains(name.file@),
{
    if a0.can_issue(4 * s.len() as int) {
        assert(models_registered(m1.entries(), m0.entries(), s));
        let j = choose|j: int| 0 <= j < s.len() && s[j].0 == other;
        assert(m1.entries().contains_key(s[j].0));
    } else {
        assert(false);
    }
}

/// The source line that includes the named file.
pub open spec fn include_line(name: Seq<char>) -> Seq<char> {
    include_pattern() + name + seq!['"']
}

/// A file whose whole content is one include directive parses as exactly
/// that directive: its first line is the whole text, the directive extracts
/// the included name, and nothing follows the line.
proof fn lemma_include_line_parses(name: Seq<char>)
    requires
        forall|j: int| 0 <= j < name.len() ==> name[j] != '\n',
    ensures
        line_len(include_line(name)) == include_line(name).len(),
        include_line(name).take(line_len(include_line(name))) == include_line(name),
        crate::preprocess::spec_include_name(include_line(name)) == Some(name),
{
    reveal_strlit("#include \"");
    let s = include_line(name);
    assert(include_pattern().len() == 10);
    assert forall|j: int| 0 <= j < s.len() implies s[j] != '\n' by {
        if j < 10 {
            assert(s[j] == include_pattern()[j]);
        } else if j < 10 + name.len() {
            assert(s[j] == name[j - 10]);
        } else {
            assert(s[j] == '"');
        }
    }
    lemma_line_len_at(s, s.len() as int);
    assert(s.take(line_len(s)) =~= s);
    assert(s.subrange(0, 10) =~= include_pattern());
    assert(s.subrange(10, s.len() - 1) =~= name);
    assert(s[s.len() - 1] == '"');
}

/// Include-depth bound: a chain of files each including the next, longer
/// than the depth budget left at the point resolution enters it, ends in
/// the depth-exceeded error naming the include that crossed the bound —
/// never in divergence, which resolution's own termination measure already
/// rules out.
pub proof fn lemma_deep_include_chain_rejected(
    store: Map<Seq<char>, String>, names: Seq<Seq<char>>, i: int, depth: int,
)
    requires
        0 <= i < names.len(),
        forall|j: int| 0 <= j < names.len() ==> store.contains_key(#[trigger] names[j]),
        forall|j: int| 0 <= j < names.len() - 1
            ==> store[#[trigger] names[j]]@ == include_line(names[j + 1]),
        forall|j: int, x: int| 0 <= j < names.len() && 0 <= x < names[j].len()
            ==> #[trigger] names[j][x] != '\n',
        0 <= depth <= MAX_INCLUDE_DEPTH,
        names.len() - 1 - i > MAX_INCLUDE_DEPTH - depth,
    ensures
        spec_resolve(store, store[names[i]]@, depth)
            == Err::<Seq<char>, ShadeIssue>(ShadeIssue::DepthExceeded {
                name: names[i + (MAX_INCLUDE_DEPTH - depth) + 1],
            }),
    decreases MAX_INCLUDE_DEPTH - depth,
{
    assert(forall|x: int| 0 <= x < names[i + 1].len()
        ==> #[trigger] names[i + 1][x] != '\n');
    lemma_include_line_parses(names[i + 1]);
    if depth + 1 > MAX_INCLUDE_DEPTH {
        assert(i + (MAX_INCLUDE_DEPTH - depth) + 1 == i + 1);
    } else {
        lemma_deep_include_chain_rejected(store, names, i + 1, depth + 1);
    }
}

/// Include-depth bound, cyclic form: a file that includes itself is an
/// include chain of unbounded depth; resolving it from any legal starting
/// depth ends in the depth-exceeded error.
pub proof fn lemma_include_cycle_rejected(
    store: Map<Seq<char>, String>, name: Seq<char>, depth: int,
)
    requires
        store.contains_key(name),
        store[name]@ == include_line(name),
        forall|j: int| 0 <= j < name.len() ==> name[j] != '\n',
        0 <= depth <= MAX_INCLUDE_DEPTH,
    ensures
        spec_resolve(store, store[name]@, depth)
            == Err::<Seq<char>, ShadeIssue>(ShadeIssue::DepthExceeded { name }),
    decreases MAX_INCLUDE_DEPTH - depth,
{
    lemma_include_line_parses(name);
    if depth + 1 > MAX_INCLUDE_DEPTH {
    } else {
        lemma_include_cycle_rejected(store, name, depth + 1);
    }
}

/// Pass reconstruction determinism: two pipelines built from the same scale
/// and the same swapchain descriptor report value-equal offscreen and depth
/// descriptors, whatever the identities of the underlying objects.
pub proof fn lemma_reconstruction_deterministic(
    config: Scale, schain: SwapchainDescriptor, p1: MainPass, p2: MainPass,
)
    requires
        p1.pre.hdr_desc == PrePass::spec_output_desc(config, schain),
        p2.pre.hdr_desc == PrePass::spec_output_desc(config, schain),
        p1.basic.zbuffer_desc == BasicPass::spec_zbuffer_desc(
            AnyAttachmentDescriptor::TextureView(p1.pre.hdr_desc)),
        p2.basic.zbuffer_desc == BasicPass::spec_zbuffer_desc(
            AnyAttachmentDescriptor::TextureView(p2.pre.hdr_desc)),
    ensures
        p1.pre.hdr_desc == p2.pre.hdr_desc,
        p1.basic.zbuffer_desc == p2.basic.zbuffer_desc,
{
}

/// Whether `h` is one of the live resources a full pipeline references.
pub open spec fn main_pass_has_handle(p: MainPass, h: u64) -> bool {
    ||| h == p.pre.hdr_texture
    ||| h == p.basic.camera.buffer
    ||| h == p.basic.project.buffer
    ||| h == p.basic.u_cam_group
    ||| h == p.basic.u_tex_group
    ||| h == p.basic.pipeline
    ||| h == p.basic.zbuffer
    ||| h == p.post.sampler
    ||| h == p.post.tex_view
    ||| h == p.post.tex_group
    ||| h == p.post.pipeline
}

/// Resize freshness: a pipeline whose resources were all issued at or after
/// a point references no resource of a pipeline whose resources were all
/// issued before that point. With `refresh`'s contract, the rebuilt pipeline
/// therefore references no handle from before the refresh.
pub proof fn lemma_refresh_uses_no_stale_handle(before: MainPass, n: u64, after: MainPass)
    requires
        main_handles_lt(before, n),
        main_handles_ge(after, n),
    ensures
        forall|h: u64| main_pass_has_handle(after, h) ==> !main_pass_has_handle(before, h),
{
}

} // verus!
