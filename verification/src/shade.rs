use vstd::prelude::*;
use crate::err::RenderError;
use crate::handle::HandleAllocator;
use crate::namemap::NameMap;
use crate::preprocess::{resolve_includes, spec_resolve, issue_matches_error, ShadeIssue};
use crate::strutil::{ends_with, spec_ends_with};

verus! {

/// The pipeline stage a shader module feeds, read off its file extension.
#[derive(Clone, Copy, PartialEq, Eq, Structural, Debug)]
pub enum ShaderStage {
    Vertex,
    Fragment,
    Compute,
}

/// The stage a shader file name announces, if its extension is recognized.
pub open spec fn spec_stage_of(name: Seq<char>) -> Option<ShaderStage> {
    if spec_ends_with(name, ".vert"@) {
        Some(ShaderStage::Vertex)
    } else if spec_ends_with(name, ".frag"@) {
        Some(ShaderStage::Fragment)
    } else if spec_ends_with(name, ".comp"@) {
        Some(ShaderStage::Compute)
    } else {
        None
    }
}

pub fn stage_of(name: &str) -> (r: Option<ShaderStage>)
    ensures
        r == spec_stage_of(name@),
{
    if ends_with(name, ".vert") {
        Some(ShaderStage::Vertex)
    } else if ends_with(name, ".frag") {
        Some(ShaderStage::Fragment)
    } else if ends_with(name, ".comp") {
        Some(ShaderStage::Compute)
    } else {
        None
    }
}

/// How far the shader compiler is asked to optimize.
#[derive(Clone, Copy, PartialEq, Eq, Structural, Debug)]
pub enum OptimizationLevel {
    Zero,
    Performance,
}

/// Options handed to the shader compiler.
#[derive(Clone, Copy, PartialEq, Eq, Structural, Debug)]
pub struct CompileOptions {
    pub auto_bind_uniforms: bool,
    pub warnings_as_errors: bool,
    pub optimization: OptimizationLevel,
}

/// A stage reference into a compiled module, entered at `main`.
pub struct ProgrammableStageDescriptor {
    pub module: u64,
    pub entry_point: String,
}

/// A compiled shader, cached under its logical name: the module's live
/// identifier, its stage, and the include-resolved source it was built from.
pub struct ShaderCacheEntry {
    module: u64,
    stage: ShaderStage,
    source: String,
}

/// A caller's view of a cache entry: the module identifier and stage.
#[derive(Clone, Copy, PartialEq, Eq, Structural, Debug)]
pub struct ShaderRef {
    pub module: u64,
    pub stage: ShaderStage,
}

impl ShaderCacheEntry {
    pub closed spec fn spec_module(&self) -> u64 {
        self.module
    }

    pub closed spec fn spec_stage(&self) -> ShaderStage {
        self.stage
    }

    pub closed spec fn spec_source(&self) -> Seq<char> {
        self.source@
    }

    pub fn module(&self) -> (r: u64)
        ensures
            r == self.spec_module(),
    {
        self.module
    }

    pub fn stage(&self) -> (r: ShaderStage)
        ensures
            r == self.spec_stage(),
    {
        self.stage
    }

    pub fn source(&self) -> (r: &str)
        ensures
            r@ == self.spec_source(),
    {
        self.source.as_str()
    }

    pub fn descriptor(&self) -> (r: ProgrammableStageDescriptor)
        ensures
            r.module == self.spec_module(),
            r.entry_point@ == "main"@,
    {
        ProgrammableStageDescriptor {
            module: self.module,
            entry_point: "main".to_owned(),
        }
    }
}

/// The caller-visible fields of an entry.
pub open spec fn spec_ref(e: ShaderCacheEntry) -> ShaderRef {
    ShaderRef { module: e.spec_module(), stage: e.spec_stage() }
}

/// The entry a successful build must have produced.
pub open spec fn entry_is(e: ShaderCacheEntry, module: u64, stage: ShaderStage, src: Seq<char>)
    -> bool {
    e.spec_module() == module && e.spec_stage() == stage && e.spec_source() == src
}

/// What building the named shader from the given files yields: its stage and
/// its include-resolved source, or the issue that stops the build.
pub open spec fn spec_shader_build(files: Map<Seq<char>, String>, name: Seq<char>)
    -> Result<(ShaderStage, Seq<char>), ShadeIssue>
{
    if !files.contains_key(name) {
        Err(ShadeIssue::FileNotFound { name })
    } else {
        match spec_stage_of(name) {
            None => Err(ShadeIssue::UnknownExtension { name }),
            Some(stage) => match spec_resolve(files, files[name]@, 0) {
                Ok(src) => Ok((stage, src)),
                Err(issue) => Err(issue),
            },
        }
    }
}

/// How one `ShaderCache::load` call relates the state after (`post`,
/// `post_alloc`, result `r`) to the state before (`pre`, `pre_alloc`): a hit
/// changes nothing and returns the memoized module; a miss either registers
/// exactly one freshly compiled entry or fails with the build's issue and
/// changes nothing.
pub open spec fn shader_load_post(
    pre: ShaderCache,
    pre_alloc: HandleAllocator,
    files: Map<Seq<char>, String>,
    name: Seq<char>,
    post: ShaderCache,
    post_alloc: HandleAllocator,
    r: Result<ShaderRef, RenderError>,
) -> bool {
    &&& pre.entries().contains_key(name) ==> {
        &&& r matches Ok(sref) && sref == spec_ref(pre.entries()[name])
        &&& post.entries() == pre.entries()
        &&& post.spec_compiles() == pre.spec_compiles()
        &&& post.spec_options() == pre.spec_options()
        &&& post_alloc == pre_alloc
    }
    &&& !pre.entries().contains_key(name) ==> match spec_shader_build(files, name) {
        Ok((stage, src)) => {
            &&& r matches Ok(sref) && sref == (ShaderRef {
                module: pre_alloc.spec_next(),
                stage,
            })
            &&& post_alloc.spec_next() == pre_alloc.spec_next() + 1
            &&& post.spec_compiles() == pre.spec_compiles() + 1
            &&& post.entries().contains_key(name)
            &&& entry_is(post.entries()[name], pre_alloc.spec_next(), stage, src)
            &&& post.entries() == pre.entries().insert(name, post.entries()[name])
            &&& post.spec_options() == pre.spec_options()
        },
        Err(issue) => {
            &&& r matches Err(e) && issue_matches_error(issue, e)
            &&& post.entries() == pre.entries()
            &&& post.spec_compiles() == pre.spec_compiles()
            &&& post.spec_options() == pre.spec_options()
            &&& post_alloc == pre_alloc
        },
    }
}

/// Compiles shader source to modules and memoizes them by logical name.
///
/// A hit returns the cached module without touching the files or the
/// compile count; a miss resolves includes, compiles, and registers exactly
/// one new entry. `spec_compiles` is the load-count instrumentation: it
/// counts actual compilations performed.
pub struct ShaderCache {
    cache: NameMap<ShaderCacheEntry>,
    options: CompileOptions,
    load_count: u64,
}

impl ShaderCache {
    pub closed spec fn entries(&self) -> Map<Seq<char>, ShaderCacheEntry> {
        self.cache@
    }

    pub closed spec fn spec_compiles(&self) -> u64 {
        self.load_count
    }

    pub closed spec fn spec_options(&self) -> CompileOptions {
        self.options
    }

    /// A new empty cache. `strict` mirrors a debug configuration: warnings
    /// escalate to errors and optimization is turned off.
    pub fn new(strict: bool) -> (r: Self)
        ensures
            r.entries() == Map::<Seq<char>, ShaderCacheEntry>::empty(),
            r.spec_compiles() == 0,
            r.spec_options() == (CompileOptions {
                auto_bind_uniforms: false,
                warnings_as_errors: strict,
                optimization: if strict { OptimizationLevel::Zero }
                    else { OptimizationLevel::Performance },
            }),
    {
        let options = CompileOptions {
            auto_bind_uniforms: false,
            warnings_as_errors: strict,
            optimization: if strict { OptimizationLevel::Zero }
                else { OptimizationLevel::Performance },
        };
        ShaderCache { cache: NameMap::new(), options, load_count: 0 }
    }

    pub fn options(&mut self) -> (r: &mut CompileOptions)
        ensures
            *r == old(self).spec_options(),
            final(self).spec_options() == *final(r),
            final(self).entries() == old(self).entries(),
            final(self).spec_compiles() == old(self).spec_compiles(),
    {
        &mut self.options
    }

    /// The load-count instrumentation: how many compilations have run.
    pub fn compiles(&self) -> (r: u64)
        ensures
            r == self.spec_compiles(),
    {
        self.load_count
    }

    /// Look at a cached entry without loading anything.
    pub fn get<'a>(&'a self, name: &str) -> (r: Option<&'a ShaderCacheEntry>)
        ensures
            match r {
                Some(e) => self.entries().contains_key(name@) && *e == self.entries()[name@],
                None => !self.entries().contains_key(name@),
            },
    {
        self.cache.get(name)
    }

    /// Load the named shader: return the memoized module, or build it from
    /// `files`, issuing exactly one fresh module identifier and counting
    /// exactly one compilation.
    pub fn load(&mut self, alloc: &mut HandleAllocator, files: &NameMap<String>, name: &str)
        -> (r: Result<ShaderRef, RenderError>)
        requires
            old(alloc).can_issue(1),
            old(self).spec_compiles() < u64::MAX,
        ensures
            shader_load_post(*old(self), *old(alloc), files@, name@,
                *final(self), *final(alloc), r),
    {
        match self.cache.get(name) {
            Some(e) => {
                return Ok(ShaderRef { module: e.module(), stage: e.stage() });
            },
            None => {},
        }
        let file = match files.get(name) {
            None => {
                return Err(RenderError::NotFound { name: name.to_owned() });
            },
            Some(f) => f,
        };
        let stage = match stage_of(name) {
            None => {
                return Err(RenderError::UnknownShaderExtension { name: name.to_owned() });
            },
            Some(s) => s,
        };
        let source = match resolve_includes(files, file.as_str(), 0) {
            Ok(s) => s,
            Err(e) => {
                return Err(e);
            },
        };
        let module = alloc.issue();
        self.load_count = self.load_count + 1;
        let entry = ShaderCacheEntry { module, stage, source };
        self.cache.insert(name.to_owned(), entry);
        Ok(ShaderRef { module, stage })
    }

    /// Drop the entry for `name`, so the next load rebuilds it.
    pub fn invalidate(&mut self, name: &str)
        ensures
            final(self).entries() == old(self).entries().remove(name@),
            final(self).spec_compiles() == old(self).spec_compiles(),
            final(self).spec_options() == old(self).spec_options(),
    {
        self.cache.remove(name);
    }

    /// Drop every entry.
    pub fn clear(&mut self)
        ensures
            final(self).entries() == Map::<Seq<char>, ShaderCacheEntry>::empty(),
            final(self).spec_compiles() == old(self).spec_compiles(),
            final(self).spec_options() == old(self).spec_options(),
    {
        self.cache.clear();
    }
}

} // verus!
