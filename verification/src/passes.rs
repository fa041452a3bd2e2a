use vstd::prelude::*;
use crate::err::RenderError;
use crate::models::{mesh_named, mesh_entry_ok, model_entry_matches, model_load_post,
    models_registered, spec_model_build, ModelName};
use crate::resource::{AnyAttachment, AnyAttachmentDescriptor, BindGroupLayout,
    Borrow as BorrowVal, Resource, SwapchainDescriptor, SwapchainFrame, TextureDescriptor,
    TextureFormat, TextureResource, TextureUsage, Uniform};
use crate::shade::{spec_shader_build, ShaderCache};
use crate::state::{caches_unchanged, Core};
use crate::textures::{spec_texture_build, TextureCache};
use crate::Scale;

verus! {

/// Type-level marker: a resource whose live handle may be owned by this
/// pass or borrowed from another pass's storage.
pub struct Borrow<R> {
    marker: core::marker::PhantomData<R>,
}

impl<R: Resource> Resource for Borrow<R> {
    type Descriptor = <R as Resource>::Descriptor;
    type Handle = BorrowVal<<R as Resource>::Handle>;
}

pub type InputDesc<P> = <<P as Pass>::Input as Resource>::Descriptor;
pub type OutputDesc<P> = <<P as Pass>::Output as Resource>::Descriptor;
pub type InputHandle<P> = <<P as Pass>::Input as Resource>::Handle;
pub type OutputHandle<P> = <<P as Pass>::Output as Resource>::Handle;

/// The swapchain and assets of `b` are those of `a`.
pub open spec fn env_unchanged(a: Core, b: Core) -> bool {
    &&& a.sc_desc == b.sc_desc
    &&& a.swap_chain == b.swap_chain
    &&& a.assets == b.assets
}

/// A unit of GPU work with typed input and output resources.
///
/// `construct` builds the pass and its output descriptor from a config and
/// an input descriptor, without a live frame; `perform` executes one frame's
/// work on live handles; `refresh` rebuilds the pass in place against a new
/// input descriptor, by default by constructing a replacement.
///
/// `construct_req` and `perform_req` are each implementation's precondition:
/// what it needs of the core (identifier headroom, instrumentation counters
/// below their bounds) before it may run.
pub trait Pass: Sized {
    type Input: Resource;
    type Output: Resource;
    type Config;
    type Params;

    spec fn construct_req(c: Core, config: Self::Config, input: InputDesc<Self>) -> bool;

    spec fn perform_req(&self, c: Core, params: Self::Params, input: InputHandle<Self>)
        -> bool;

    fn construct(c: &mut Core, config: Self::Config, input: &InputDesc<Self>)
        -> Result<(Self, OutputDesc<Self>), RenderError>
        requires
            Self::construct_req(*old(c), config, *input);

    fn perform(&mut self, c: &mut Core, params: Self::Params, input: InputHandle<Self>)
        -> Result<OutputHandle<Self>, RenderError>
        requires
            old(self).perform_req(*old(c), params, input);

    fn refresh(&mut self, c: &mut Core, config: Self::Config, input: &InputDesc<Self>)
        -> Result<OutputDesc<Self>, RenderError>
        requires
            Self::construct_req(*old(c), config, *input),
    {
        match Self::construct(c, config, input) {
            Ok((new_self, output)) => {
                *self = new_self;
                Ok(output)
            },
            Err(e) => Err(e),
        }
    }
}

/// A dimension scaled down by the render-quality ratio, rounding toward
/// zero.
pub open spec fn spec_scaled(scale: Scale, dim: u32) -> u32 {
    (dim * scale.num as int / scale.den as int) as u32
}

/// The pass that owns the offscreen high-dynamic-range color target, sized
/// to the scaled swapchain dimensions. Its whole frame work is handing out a
/// view of that target.
pub struct PrePass {
    pub hdr_texture: u64,
    pub hdr_desc: TextureDescriptor,
}

impl PrePass {
    /// The offscreen target allocated for a scale and swapchain shape.
    pub open spec fn spec_output_desc(scale: Scale, schain: SwapchainDescriptor)
        -> TextureDescriptor {
        TextureDescriptor {
            width: spec_scaled(scale, schain.width),
            height: spec_scaled(scale, schain.height),
            format: TextureFormat::Rgba16Float,
            usage: TextureUsage { output_attachment: true, sampled: true, copy_dst: false },
            mip_level_count: 1,
            sample_count: 1,
        }
    }
}

impl Pass for PrePass {
    type Input = SwapchainFrame;
    type Output = Borrow<TextureResource>;
    type Config = Scale;
    type Params = ();

    open spec fn construct_req(c: Core, config: Scale, input: SwapchainDescriptor) -> bool {
        &&& config.valid()
        &&& c.alloc.can_issue(1)
    }

    open spec fn perform_req(&self, c: Core, params: (), input: u64) -> bool {
        c.alloc.can_issue(1)
    }

    /// Allocate the scaled offscreen texture; cannot fail.
    fn construct(c: &mut Core, config: Scale, input: &SwapchainDescriptor)
        -> (r: Result<(Self, TextureDescriptor), RenderError>)
        ensures
            match r {
                Ok((pass, desc)) => {
                    &&& desc == PrePass::spec_output_desc(config, *input)
                    &&& pass.hdr_desc == desc
                    &&& pass.hdr_texture == old(c).alloc.spec_next()
                    &&& final(c).alloc.spec_next() == old(c).alloc.spec_next() + 1
                    &&& caches_unchanged(*old(c), *final(c))
                    &&& env_unchanged(*old(c), *final(c))
                },
                Err(_) => false,
            },
    {
        let width = config.apply(input.width);
        let height = config.apply(input.height);
        let hdr_desc = TextureDescriptor {
            width,
            height,
            format: TextureFormat::Rgba16Float,
            usage: TextureUsage { output_attachment: true, sampled: true, copy_dst: false },
            mip_level_count: 1,
            sample_count: 1,
        };
        let hdr_texture = c.alloc.issue();
        Ok((PrePass { hdr_texture, hdr_desc }, hdr_desc))
    }

    /// Hand out a freshly created view of the offscreen target; the view is
    /// the default view of `hdr_texture`, owned by the caller for the frame.
    fn perform(&mut self, c: &mut Core, params: (), input: u64)
        -> (r: Result<BorrowVal<u64>, RenderError>)
        ensures
            match r {
                Ok(view) => {
                    &&& view == BorrowVal::<u64>::Owned(old(c).alloc.spec_next())
                    &&& final(c).alloc.spec_next() == old(c).alloc.spec_next() + 1
                    &&& *final(self) == *old(self)
                    &&& caches_unchanged(*old(c), *final(c))
                    &&& env_unchanged(*old(c), *final(c))
                },
                Err(_) => false,
            },
    {
        let view = c.alloc.issue();
        Ok(BorrowVal::Owned(view))
    }

    /// Rebuild the offscreen target for a new swapchain shape: the
    /// replacement texture is a fresh object and the new descriptor is
    /// exactly what `construct` would report.
    fn refresh(&mut self, c: &mut Core, config: Scale, input: &SwapchainDescriptor)
        -> (r: Result<TextureDescriptor, RenderError>)
        ensures
            match r {
                Ok(desc) => {
                    &&& desc == PrePass::spec_output_desc(config, *input)
                    &&& final(self).hdr_desc == desc
                    &&& final(self).hdr_texture == old(c).alloc.spec_next()
                    &&& final(c).alloc.spec_next() == old(c).alloc.spec_next() + 1
                    &&& caches_unchanged(*old(c), *final(c))
                    &&& env_unchanged(*old(c), *final(c))
                },
                Err(_) => false,
            },
    {
        match Self::construct(c, config, input) {
            Ok((new_self, output)) => {
                *self = new_self;
                Ok(output)
            },
            Err(e) => Err(e),
        }
    }
}

/// Bytes of the camera uniform: a view matrix and four direction vectors.
pub const CAMERA_UNIFORM_BYTES: u64 = 112;

/// Bytes of a 4-by-4 float matrix uniform.
pub const MAT4_BYTES: u64 = 64;

/// The shape of a render pipeline as the passes fix it at construction.
#[derive(Clone, Copy, PartialEq, Eq, Structural, Debug)]
pub struct RenderPipelineInfo {
    pub color_format: TextureFormat,
    pub depth_format: Option<TextureFormat>,
    pub vertex_buffer_count: u32,
    pub bind_group_count: u32,
}

/// The named shader can be served: it is memoized already, or it builds from
/// the asset store.
pub open spec fn shader_available(c: Core, name: Seq<char>) -> bool {
    c.shaders.entries().contains_key(name)
        || spec_shader_build(c.assets.shader_files@, name) is Ok
}

/// The named texture can be served: it is memoized already, or it decodes
/// from the asset store into a supported format.
pub open spec fn texture_available(c: Core, name: Seq<char>) -> bool {
    c.textures.entries().contains_key(name)
        || spec_texture_build(c.assets.texture_files@, name) is Ok
}

/// Every entry of `a` is in `b` unchanged, and `b` adds at most the named
/// entries.
pub open spec fn shaders_extended(a: ShaderCache, b: ShaderCache, names: Set<Seq<char>>)
    -> bool {
    &&& forall|n: Seq<char>| #[trigger] a.entries().contains_key(n)
        ==> b.entries().contains_key(n) && b.entries()[n] == a.entries()[n]
    &&& forall|n: Seq<char>| !names.contains(n) && #[trigger] b.entries().contains_key(n)
        ==> a.entries().contains_key(n)
}

/// Every entry of `a` is in `b` unchanged, and `b` adds at most the named
/// entries.
pub open spec fn textures_extended(a: TextureCache, b: TextureCache, names: Set<Seq<char>>)
    -> bool {
    &&& forall|n: Seq<char>| #[trigger] a.entries().contains_key(n)
        ==> b.entries().contains_key(n) && b.entries()[n] == a.entries()[n]
    &&& forall|n: Seq<char>| !names.contains(n) && #[trigger] b.entries().contains_key(n)
        ==> a.entries().contains_key(n)
}

/// What one geometry draw encoded: the uniform uploads that preceded it, the
/// pipeline and bind groups, the index and vertex buffers in binding order
/// (positions, texture coordinates, normals), the full index range drawn,
/// and whether the color target was cleared first.
#[derive(Clone, Copy, PartialEq, Eq, Structural, Debug)]
pub struct BasicDraw {
    pub uploaded_camera: u64,
    pub uploaded_project: u64,
    pub pipeline: u64,
    pub bind_group0: u64,
    pub bind_group1: u64,
    pub index_buffer: u64,
    pub vbuf_positions: u64,
    pub vbuf_texcoords: u64,
    pub vbuf_normals: u64,
    pub index_count: u32,
    pub cleared: bool,
    pub color_target: u64,
    pub depth_view: u64,
}

/// Renders the textured, lit model into a color attachment with a depth
/// buffer, under a gimbal camera and a perspective projection whose uniform
/// data the surrounding program mutates and this pass re-uploads each frame.
pub struct BasicPass {
    pub camera: Uniform,
    pub project: Uniform,
    pub texture: crate::textures::TextureRef,
    pub u_cam_group: u64,
    pub u_tex_group: u64,
    pub pipeline: u64,
    pub pipeline_info: RenderPipelineInfo,
    pub zbuffer: u64,
    pub zbuffer_desc: TextureDescriptor,
    pub last_draw: Option<BasicDraw>,
}

pub open spec fn basic_handles_ge(p: BasicPass, n: u64) -> bool {
    &&& p.camera.buffer >= n
    &&& p.project.buffer >= n
    &&& p.u_cam_group >= n
    &&& p.u_tex_group >= n
    &&& p.pipeline >= n
    &&& p.zbuffer >= n
}

pub open spec fn basic_handles_lt(p: BasicPass, n: u64) -> bool {
    &&& p.camera.buffer < n
    &&& p.project.buffer < n
    &&& p.u_cam_group < n
    &&& p.u_tex_group < n
    &&& p.pipeline < n
    &&& p.zbuffer < n
}

/// `b` is `a` with at most the draw record changed.
pub open spec fn basic_same_but_draw(a: BasicPass, b: BasicPass) -> bool {
    b == (BasicPass { last_draw: b.last_draw, ..a })
}

/// The model data this pass draws can be served with the required
/// attributes: the model file's `Torus` entry is memoized, or the file
/// parses and every mesh it names `Torus` carries normals and texture
/// coordinates.
pub open spec fn model_data_ready(c: Core) -> bool {
    if c.models.known_files().contains("torus.obj"@) {
        &&& c.models.entries().contains_key("Torus"@)
        &&& c.models.entries()["Torus"@].normals is Some
        &&& c.models.entries()["Torus"@].texcoords is Some
    } else {
        match spec_model_build(c.assets.model_files@, "torus.obj"@) {
            Ok(s) => {
                &&& mesh_named(s, "Torus"@)
                &&& !c.models.entries().contains_key("Torus"@)
                &&& forall|j: int| 0 <= j < s.len() && s[j].0 == "Torus"@
                    ==> (#[trigger] s[j].1).normal_count > 0 && s[j].1.texcoord_count > 0
            },
            Err(_) => false,
        }
    }
}

/// How many identifiers a fresh parse of the model file would register, zero
/// when the file is already loaded or does not parse.
pub open spec fn model_build_len(c: Core) -> int {
    if c.models.known_files().contains("torus.obj"@) {
        0
    } else {
        match spec_model_build(c.assets.model_files@, "torus.obj"@) {
            Ok(s) => s.len() as int,
            Err(_) => 0,
        }
    }
}

/// With the model data ready and the allocator able to cover the load, the
/// load returns a model with both optional attributes present.
proof fn lemma_ready_model_ok(
    models0: crate::models::ModelCache,
    alloc0: crate::handle::HandleAllocator,
    files: Map<Seq<char>, String>,
    name: ModelName,
    models1: crate::models::ModelCache,
    alloc1: crate::handle::HandleAllocator,
    r: Result<crate::models::ModelRef, RenderError>,
    c0: Core,
)
    requires
        name.file@ == "torus.obj"@,
        name.name@ == "Torus"@,
        c0.models == models0,
        c0.assets.model_files@ == files,
        model_data_ready(c0),
        alloc0.can_issue(4 * model_build_len(c0)),
        model_load_post(models0, alloc0, files, name, models1, alloc1, r),
    ensures
        r matches Ok(mr) && mr.normals is Some && mr.texcoords is Some,
{
    if models0.known_files().contains(name.file@) {
    } else {
        let s = spec_model_build(files, name.file@)->Ok_0;
        assert(mesh_named(s, name.name@));
        assert(models_registered(models1.entries(), models0.entries(), s));
        let mr = r->Ok_0;
        let j = choose|j: int| 0 <= j < s.len() && s[j].0 == name.name@;
        assert(mesh_entry_ok(models1.entries(), s, j));
        let j2 = choose|j2: int| 0 <= j2 < s.len() && s[j2].0 == s[j].0
            && model_entry_matches(models1.entries()[s[j].0], s[j2].1);
        assert(s[j2].1.normal_count > 0 && s[j2].1.texcoord_count > 0);
        assert(models1.entries()[name.name@].normals is Some);
        assert(models1.entries()[name.name@].texcoords is Some);
    }
}

impl BasicPass {
    /// The depth buffer allocated for a color attachment's shape.
    pub open spec fn spec_zbuffer_desc(target: AnyAttachmentDescriptor) -> TextureDescriptor {
        TextureDescriptor {
            width: target.spec_width(),
            height: target.spec_height(),
            format: TextureFormat::Depth24Plus,
            usage: TextureUsage { output_attachment: true, sampled: true, copy_dst: false },
            mip_level_count: 1,
            sample_count: 1,
        }
    }

    /// The pipeline shape this pass always builds against a target format.
    pub open spec fn spec_pipeline_info(target: AnyAttachmentDescriptor) -> RenderPipelineInfo {
        RenderPipelineInfo {
            color_format: target.spec_format(),
            depth_format: Some(TextureFormat::Depth24Plus),
            vertex_buffer_count: 3,
            bind_group_count: 2,
        }
    }
}

impl Pass for BasicPass {
    type Input = AnyAttachment;
    type Output = Borrow<TextureResource>;
    type Config = ();
    type Params = ();

    open spec fn construct_req(c: Core, config: (), input: AnyAttachmentDescriptor) -> bool {
        &&& c.alloc.can_issue(16)
        &&& c.shaders.spec_compiles() + 2 <= u64::MAX
        &&& c.textures.spec_loads() < u64::MAX
    }

    open spec fn perform_req(&self, c: Core, params: (), input: u64) -> bool {
        &&& c.alloc.can_issue(1)
        &&& c.models.spec_loads() < u64::MAX
    }

    /// Build the camera and projection uniforms, the depth buffer sized to
    /// the attachment, both bind groups, and the depth-tested pipeline
    /// targeting the attachment's format, loading the texture and both
    /// shaders through the caches.
    fn construct(c: &mut Core, config: (), input: &AnyAttachmentDescriptor)
        -> (r: Result<(Self, TextureDescriptor), RenderError>)
        ensures
            (texture_available(*old(c), "gray_marble.tif"@)
                && shader_available(*old(c), "basic.vert"@)
                && shader_available(*old(c), "basic.frag"@)) <==> r is Ok,
            old(c).alloc.spec_next() <= final(c).alloc.spec_next()
                <= old(c).alloc.spec_next() + 16,
            final(c).shaders.spec_compiles() <= old(c).shaders.spec_compiles() + 2,
            final(c).textures.spec_loads() <= old(c).textures.spec_loads() + 1,
            final(c).models == old(c).models,
            env_unchanged(*old(c), *final(c)),
            shaders_extended(old(c).shaders, final(c).shaders,
                set!["basic.vert"@, "basic.frag"@]),
            textures_extended(old(c).textures, final(c).textures,
                set!["gray_marble.tif"@]),
            match r {
                Ok((pass, out)) => {
                    &&& out == BasicPass::spec_zbuffer_desc(*input)
                    &&& pass.zbuffer_desc == out
                    &&& pass.pipeline_info == BasicPass::spec_pipeline_info(*input)
                    &&& pass.camera.size_bytes == CAMERA_UNIFORM_BYTES
                    &&& pass.project.size_bytes == MAT4_BYTES
                    &&& pass.last_draw is None
                    &&& basic_handles_ge(pass, old(c).alloc.spec_next())
                    &&& basic_handles_lt(pass, final(c).alloc.spec_next())
                },
                Err(_) => true,
            },
    {
        let camera = Uniform::new(&mut c.alloc, CAMERA_UNIFORM_BYTES);
        let project = Uniform::new(&mut c.alloc, MAT4_BYTES);
        let zbuffer_desc = TextureDescriptor {
            width: input.width(),
            height: input.height(),
            format: TextureFormat::Depth24Plus,
            usage: TextureUsage { output_attachment: true, sampled: true, copy_dst: false },
            mip_level_count: 1,
            sample_count: 1,
        };
        let zbuffer = c.alloc.issue();
        let _u_cam_layout = BindGroupLayout::uniform_pair();
        let u_cam_group = c.alloc.issue();
        let tex = match c.textures.load(&mut c.alloc, &c.assets.texture_files,
            "gray_marble.tif") {
            Ok(t) => t,
            Err(e) => {
                return Err(e);
            },
        };
        let _tex_view = c.alloc.issue();
        let u_tex_group = c.alloc.issue();
        let _vert = match c.shaders.load(&mut c.alloc, &c.assets.shader_files, "basic.vert") {
            Ok(v) => v,
            Err(e) => {
                return Err(e);
            },
        };
        let _frag = match c.shaders.load(&mut c.alloc, &c.assets.shader_files, "basic.frag") {
            Ok(f) => f,
            Err(e) => {
                return Err(e);
            },
        };
        let pipeline = c.alloc.issue();
        let pipeline_info = RenderPipelineInfo {
            color_format: input.format(),
            depth_format: Some(TextureFormat::Depth24Plus),
            vertex_buffer_count: 3,
            bind_group_count: 2,
        };
        Ok((BasicPass {
            camera,
            project,
            texture: tex,
            u_cam_group,
            u_tex_group,
            pipeline,
            pipeline_info,
            zbuffer,
            zbuffer_desc,
            last_draw: None,
        }, zbuffer_desc))
    }

    /// Re-upload the camera and projection uniforms, load the model, and
    /// encode one indexed draw over its full index range into the given
    /// color target, clearing color and depth first. The output borrows this
    /// pass's depth buffer.
    fn perform(&mut self, c: &mut Core, params: (), input: u64)
        -> (r: Result<BorrowVal<u64>, RenderError>)
        ensures
            (model_data_ready(*old(c))
                && old(c).alloc.can_issue(1 + 4 * model_build_len(*old(c)))) ==> r is Ok,
            old(c).alloc.spec_next() <= final(c).alloc.spec_next()
                <= old(c).alloc.spec_next() + 1 + 4 * model_build_len(*old(c)),
            final(c).shaders == old(c).shaders,
            final(c).textures == old(c).textures,
            env_unchanged(*old(c), *final(c)),
            old(c).models.known_files().contains("torus.obj"@)
                ==> final(c).models == old(c).models,
            match r {
                Ok(out) => {
                    &&& out == BorrowVal::<u64>::Borrowed(old(self).zbuffer)
                    &&& final(c).models.entries().contains_key("Torus"@)
                    &&& basic_same_but_draw(*old(self), *final(self))
                    &&& (final(self).last_draw matches Some(d) && {
                        let entry = final(c).models.entries()["Torus"@];
                        &&& d.uploaded_camera == old(self).camera.buffer
                        &&& d.uploaded_project == old(self).project.buffer
                        &&& d.pipeline == old(self).pipeline
                        &&& d.bind_group0 == old(self).u_cam_group
                        &&& d.bind_group1 == old(self).u_tex_group
                        &&& d.index_count == entry.vertex_ct
                        &&& d.index_buffer == entry.indices
                        &&& d.vbuf_positions == entry.positions
                        &&& Some(d.vbuf_texcoords) == entry.texcoords
                        &&& Some(d.vbuf_normals) == entry.normals
                        &&& d.cleared
                        &&& d.color_target == input
                        &&& d.depth_view == old(c).alloc.spec_next()
                    })
                },
                Err(e) => {
                    &&& *final(self) == *old(self)
                    &&& (e matches RenderError::NotFound { .. }
                        || e matches RenderError::ParseFailed { .. }
                        || e matches RenderError::ModelMissing { .. }
                        || e matches RenderError::MissingAttribute { .. }
                        || e matches RenderError::OutOfHandles)
                },
            },
    {
        let zbuffer_view = c.alloc.issue();
        let ghost alloc_mid = c.alloc;
        let mname = ModelName { file: "torus.obj".to_owned(), name: "Torus".to_owned() };
        let load_r = c.models.load(&mut c.alloc, &c.assets.model_files, &mname);
        proof {
            if model_data_ready(*old(c))
                && old(c).alloc.can_issue(1 + 4 * model_build_len(*old(c))) {
                lemma_ready_model_ok(old(c).models, alloc_mid,
                    old(c).assets.model_files@, mname, c.models, c.alloc, load_r, *old(c));
            }
        }
        let model = match load_r {
            Ok(m) => m,
            Err(e) => {
                return Err(e);
            },
        };
        let texcoords = match model.texcoords {
            Some(t) => t,
            None => {
                return Err(RenderError::MissingAttribute { name: "texcoords".to_owned() });
            },
        };
        let normals = match model.normals {
            Some(nm) => nm,
            None => {
                return Err(RenderError::MissingAttribute { name: "normals".to_owned() });
            },
        };
        let draw = BasicDraw {
            uploaded_camera: self.camera.buffer,
            uploaded_project: self.project.buffer,
            pipeline: self.pipeline,
            bind_group0: self.u_cam_group,
            bind_group1: self.u_tex_group,
            index_buffer: model.indices,
            vbuf_positions: model.positions,
            vbuf_texcoords: texcoords,
            vbuf_normals: normals,
            index_count: model.vertex_ct,
            cleared: true,
            color_target: input,
            depth_view: zbuffer_view,
        };
        self.last_draw = Some(draw);
        Ok(BorrowVal::Borrowed(self.zbuffer))
    }

    /// Rebuild everything size-dependent against a new attachment shape; the
    /// replacement resources are all fresh objects.
    fn refresh(&mut self, c: &mut Core, config: (), input: &AnyAttachmentDescriptor)
        -> (r: Result<TextureDescriptor, RenderError>)
        ensures
            (texture_available(*old(c), "gray_marble.tif"@)
                && shader_available(*old(c), "basic.vert"@)
                && shader_available(*old(c), "basic.frag"@)) <==> r is Ok,
            old(c).alloc.spec_next() <= final(c).alloc.spec_next()
                <= old(c).alloc.spec_next() + 16,
            final(c).shaders.spec_compiles() <= old(c).shaders.spec_compiles() + 2,
            final(c).textures.spec_loads() <= old(c).textures.spec_loads() + 1,
            final(c).models == old(c).models,
            env_unchanged(*old(c), *final(c)),
            shaders_extended(old(c).shaders, final(c).shaders,
                set!["basic.vert"@, "basic.frag"@]),
            textures_extended(old(c).textures, final(c).textures,
                set!["gray_marble.tif"@]),
            match r {
                Ok(out) => {
                    &&& out == BasicPass::spec_zbuffer_desc(*input)
                    &&& final(self).zbuffer_desc == out
                    &&& final(self).pipeline_info == BasicPass::spec_pipeline_info(*input)
                    &&& basic_handles_ge(*final(self), old(c).alloc.spec_next())
                    &&& basic_handles_lt(*final(self), final(c).alloc.spec_next())
                },
                Err(_) => *final(self) == *old(self),
            },
    {
        match Self::construct(c, config, input) {
            Ok((new_self, output)) => {
                *self = new_self;
                Ok(output)
            },
            Err(e) => Err(e),
        }
    }
}

/// What one compositing draw encoded: a full-screen triangle of three
/// vertices, no vertex buffers, into a target that is loaded, not cleared.
#[derive(Clone, Copy, PartialEq, Eq, Structural, Debug)]
pub struct PostDraw {
    pub pipeline: u64,
    pub bind_group: u64,
    pub vertex_count: u32,
    pub cleared: bool,
    pub target: u64,
}

/// Composites the offscreen high-dynamic-range target onto the swapchain
/// frame with a full-screen triangle, sampling the target through a linear
/// sampler and alpha-blending over what the frame already holds.
pub struct PostPass {
    pub source_texture: u64,
    pub sampler: u64,
    pub sampler_desc: crate::resource::SamplerDescriptor,
    pub tex_view: u64,
    pub tex_group: u64,
    pub tex_layout: BindGroupLayout,
    pub pipeline: u64,
    pub pipeline_info: RenderPipelineInfo,
    pub last_draw: Option<PostDraw>,
}

pub open spec fn post_handles_ge(p: PostPass, n: u64) -> bool {
    &&& p.sampler >= n
    &&& p.tex_view >= n
    &&& p.tex_group >= n
    &&& p.pipeline >= n
}

pub open spec fn post_handles_lt(p: PostPass, n: u64) -> bool {
    &&& p.sampler < n
    &&& p.tex_view < n
    &&& p.tex_group < n
    &&& p.pipeline < n
}

impl PostPass {
    /// The pipeline shape this pass always builds against the swapchain's
    /// format: no depth, no vertex buffers, one bind group.
    pub open spec fn spec_pipeline_info(schain: SwapchainDescriptor) -> RenderPipelineInfo {
        RenderPipelineInfo {
            color_format: schain.format,
            depth_format: None,
            vertex_buffer_count: 0,
            bind_group_count: 1,
        }
    }
}

impl Pass for PostPass {
    type Input = SwapchainFrame;
    type Output = ();
    type Config = BorrowVal<u64>;
    type Params = ();

    open spec fn construct_req(c: Core, config: BorrowVal<u64>, input: SwapchainDescriptor)
        -> bool {
        &&& c.alloc.can_issue(8)
        &&& c.shaders.spec_compiles() + 2 <= u64::MAX
    }

    open spec fn perform_req(&self, c: Core, params: (), input: u64) -> bool {
        true
    }

    /// Build the linear sampler, the (texture, sampler) bind group over the
    /// offscreen texture handed in as config, and the full-screen-triangle
    /// pipeline targeting the swapchain's format, loading both shaders
    /// through the cache.
    fn construct(c: &mut Core, config: BorrowVal<u64>, input: &SwapchainDescriptor)
        -> (r: Result<(Self, ()), RenderError>)
        ensures
            (shader_available(*old(c), "post.vert"@)
                && shader_available(*old(c), "post.frag"@)) <==> r is Ok,
            old(c).alloc.spec_next() <= final(c).alloc.spec_next()
                <= old(c).alloc.spec_next() + 8,
            final(c).shaders.spec_compiles() <= old(c).shaders.spec_compiles() + 2,
            final(c).models == old(c).models,
            final(c).textures == old(c).textures,
            env_unchanged(*old(c), *final(c)),
            shaders_extended(old(c).shaders, final(c).shaders,
                set!["post.vert"@, "post.frag"@]),
            match r {
                Ok((pass, out)) => {
                    &&& pass.pipeline_info == PostPass::spec_pipeline_info(*input)
                    &&& pass.source_texture == config.value()
                    &&& pass.sampler_desc == crate::resource::SamplerDescriptor::spec_linear()
                    &&& pass.tex_layout.entries@ == BindGroupLayout::spec_texture_pair()
                    &&& pass.last_draw is None
                    &&& post_handles_ge(pass, old(c).alloc.spec_next())
                    &&& post_handles_lt(pass, final(c).alloc.spec_next())
                },
                Err(_) => true,
            },
    {
        let tex_layout = BindGroupLayout::texture_pair();
        let sampler = c.alloc.issue();
        let tex_view = c.alloc.issue();
        let tex_group = c.alloc.issue();
        let _vert = match c.shaders.load(&mut c.alloc, &c.assets.shader_files, "post.vert") {
            Ok(v) => v,
            Err(e) => {
                return Err(e);
            },
        };
        let _frag = match c.shaders.load(&mut c.alloc, &c.assets.shader_files, "post.frag") {
            Ok(f) => f,
            Err(e) => {
                return Err(e);
            },
        };
        let pipeline = c.alloc.issue();
        let pipeline_info = RenderPipelineInfo {
            color_format: input.format,
            depth_format: None,
            vertex_buffer_count: 0,
            bind_group_count: 1,
        };
        Ok((PostPass {
            source_texture: config.get(),
            sampler,
            sampler_desc: crate::resource::SamplerDescriptor::linear(),
            tex_view,
            tex_group,
            tex_layout,
            pipeline,
            pipeline_info,
            last_draw: None,
        }, ()))
    }

    /// Encode the full-screen triangle into the swapchain frame: three
    /// vertices, no vertex buffers, loading the frame's existing contents
    /// rather than clearing them. Cannot fail.
    fn perform(&mut self, c: &mut Core, params: (), input: u64)
        -> (r: Result<(), RenderError>)
        ensures
            match r {
                Ok(_) => {
                    &&& *final(c) == *old(c)
                    &&& final(self).last_draw == Some(PostDraw {
                        pipeline: old(self).pipeline,
                        bind_group: old(self).tex_group,
                        vertex_count: 3,
                        cleared: false,
                        target: input,
                    })
                    &&& *final(self) == (PostPass {
                        last_draw: final(self).last_draw,
                        ..*old(self)
                    })
                },
                Err(_) => false,
            },
    {
        let draw = PostDraw {
            pipeline: self.pipeline,
            bind_group: self.tex_group,
            vertex_count: 3,
            cleared: false,
            target: input,
        };
        self.last_draw = Some(draw);
        Ok(())
    }

    /// Rebuild the compositing pipeline against a new swapchain shape; the
    /// replacement resources are all fresh objects.
    fn refresh(&mut self, c: &mut Core, config: BorrowVal<u64>, input: &SwapchainDescriptor)
        -> (r: Result<(), RenderError>)
        ensures
            (shader_available(*old(c), "post.vert"@)
                && shader_available(*old(c), "post.frag"@)) <==> r is Ok,
            old(c).alloc.spec_next() <= final(c).alloc.spec_next()
                <= old(c).alloc.spec_next() + 8,
            final(c).shaders.spec_compiles() <= old(c).shaders.spec_compiles() + 2,
            final(c).models == old(c).models,
            final(c).textures == old(c).textures,
            env_unchanged(*old(c), *final(c)),
            shaders_extended(old(c).shaders, final(c).shaders,
                set!["post.vert"@, "post.frag"@]),
            match r {
                Ok(_) => {
                    &&& final(self).pipeline_info == PostPass::spec_pipeline_info(*input)
                    &&& final(self).sampler_desc
                        == crate::resource::SamplerDescriptor::spec_linear()
                    &&& post_handles_ge(*final(self), old(c).alloc.spec_next())
                    &&& post_handles_lt(*final(self), final(c).alloc.spec_next())
                },
                Err(_) => *final(self) == *old(self),
            },
    {
        match Self::construct(c, config, input) {
            Ok((new_self, ())) => {
                *self = new_self;
                Ok(())
            },
            Err(e) => Err(e),
        }
    }
}

/// The full pipeline: the offscreen pre-pass, the geometry pass targeting
/// the offscreen texture, and the compositing post-pass targeting the
/// swapchain frame. Its output descriptor is the swapchain descriptor it was
/// given: the pass's product is drawing commands against that same frame.
pub struct MainPass {
    pub pre: PrePass,
    pub basic: BasicPass,
    pub post: PostPass,
}

pub open spec fn main_handles_ge(p: MainPass, n: u64) -> bool {
    &&& p.pre.hdr_texture >= n
    &&& basic_handles_ge(p.basic, n)
    &&& post_handles_ge(p.post, n)
}

pub open spec fn main_handles_lt(p: MainPass, n: u64) -> bool {
    &&& p.pre.hdr_texture < n
    &&& basic_handles_lt(p.basic, n)
    &&& post_handles_lt(p.post, n)
}

/// Every asset the full pipeline's construction loads can be served.
pub open spec fn main_assets_available(c: Core) -> bool {
    &&& texture_available(c, "gray_marble.tif"@)
    &&& shader_available(c, "basic.vert"@)
    &&& shader_available(c, "basic.frag"@)
    &&& shader_available(c, "post.vert"@)
    &&& shader_available(c, "post.frag"@)
}

impl Pass for MainPass {
    type Input = SwapchainFrame;
    type Output = SwapchainFrame;
    type Config = Scale;
    type Params = ();

    open spec fn construct_req(c: Core, config: Scale, input: SwapchainDescriptor) -> bool {
        &&& config.valid()
        &&& c.alloc.can_issue(32)
        &&& c.shaders.spec_compiles() + 4 <= u64::MAX
        &&& c.textures.spec_loads() < u64::MAX
    }

    open spec fn perform_req(&self, c: Core, params: (), input: u64) -> bool {
        &&& c.alloc.can_issue(2)
        &&& c.models.spec_loads() < u64::MAX
    }

    /// Build the three sub-passes in order, threading the pre-pass's
    /// offscreen descriptor into the geometry pass and its texture into the
    /// compositing pass. The output descriptor is the input swapchain
    /// descriptor itself.
    fn construct(c: &mut Core, config: Scale, input: &SwapchainDescriptor)
        -> (r: Result<(Self, SwapchainDescriptor), RenderError>)
        ensures
            main_assets_available(*old(c)) ==> r is Ok,
            old(c).alloc.spec_next() <= final(c).alloc.spec_next()
                <= old(c).alloc.spec_next() + 32,
            final(c).shaders.spec_compiles() <= old(c).shaders.spec_compiles() + 4,
            final(c).textures.spec_loads() <= old(c).textures.spec_loads() + 1,
            final(c).models == old(c).models,
            env_unchanged(*old(c), *final(c)),
            shaders_extended(old(c).shaders, final(c).shaders,
                set!["basic.vert"@, "basic.frag"@, "post.vert"@, "post.frag"@]),
            textures_extended(old(c).textures, final(c).textures,
                set!["gray_marble.tif"@]),
            match r {
                Ok((pass, out)) => {
                    &&& out == *input
                    &&& pass.pre.hdr_desc == PrePass::spec_output_desc(config, *input)
                    &&& pass.basic.zbuffer_desc == BasicPass::spec_zbuffer_desc(
                        AnyAttachmentDescriptor::TextureView(pass.pre.hdr_desc))
                    &&& pass.basic.pipeline_info == BasicPass::spec_pipeline_info(
                        AnyAttachmentDescriptor::TextureView(pass.pre.hdr_desc))
                    &&& pass.post.pipeline_info == PostPass::spec_pipeline_info(*input)
                    &&& pass.post.source_texture == pass.pre.hdr_texture
                    &&& main_handles_ge(pass, old(c).alloc.spec_next())
                    &&& main_handles_lt(pass, final(c).alloc.spec_next())
                },
                Err(_) => true,
            },
    {
        let (pre, hdr_desc) = match PrePass::construct(c, config, input) {
            Ok(p) => p,
            Err(e) => {
                return Err(e);
            },
        };
        let attachment = AnyAttachmentDescriptor::TextureView(hdr_desc);
        let (basic, _zdesc) = match BasicPass::construct(c, (), &attachment) {
            Ok(b) => b,
            Err(e) => {
                return Err(e);
            },
        };
        let (post, _unit) = match PostPass::construct(
            c, BorrowVal::Borrowed(pre.hdr_texture), input) {
            Ok(p) => p,
            Err(e) => {
                return Err(e);
            },
        };
        Ok((MainPass { pre, basic, post }, *input))
    }

    /// Run the three sub-passes in order for one frame: the pre-pass hands
    /// out the offscreen view, the geometry pass draws into it, and the
    /// compositing pass draws onto the swapchain frame, which is returned.
    fn perform(&mut self, c: &mut Core, params: (), input: u64)
        -> (r: Result<u64, RenderError>)
        ensures
            (model_data_ready(*old(c))
                && old(c).alloc.can_issue(2 + 4 * model_build_len(*old(c)))) ==> r is Ok,
            old(c).alloc.spec_next() <= final(c).alloc.spec_next()
                <= old(c).alloc.spec_next() + 2 + 4 * model_build_len(*old(c)),
            final(c).shaders == old(c).shaders,
            final(c).textures == old(c).textures,
            env_unchanged(*old(c), *final(c)),
            old(c).models.known_files().contains("torus.obj"@)
                ==> final(c).models == old(c).models,
            match r {
                Ok(out) => {
                    &&& out == input
                    &&& final(self).pre == old(self).pre
                    &&& basic_same_but_draw(old(self).basic, final(self).basic)
                    &&& (final(self).basic.last_draw matches Some(d)
                        && d.color_target == old(c).alloc.spec_next()
                        && d.cleared)
                    &&& final(self).post.last_draw == Some(PostDraw {
                        pipeline: old(self).post.pipeline,
                        bind_group: old(self).post.tex_group,
                        vertex_count: 3,
                        cleared: false,
                        target: input,
                    })
                },
                Err(_) => true,
            },
    {
        let hdr_view = match self.pre.perform(c, (), input) {
            Ok(v) => v,
            Err(e) => {
                return Err(e);
            },
        };
        let view_id = hdr_view.get();
        let _depth = match self.basic.perform(c, (), view_id) {
            Ok(d) => d,
            Err(e) => {
                return Err(e);
            },
        };
        match self.post.perform(c, (), input) {
            Ok(_) => {},
            Err(e) => {
                return Err(e);
            },
        }
        Ok(input)
    }

    /// Rebuild all three sub-passes against a new swapchain shape: the
    /// descriptors come out exactly as a fresh construction's would, and
    /// every live resource of the rebuilt pipeline is a fresh object,
    /// distinct from every object issued before the refresh.
    fn refresh(&mut self, c: &mut Core, config: Scale, input: &SwapchainDescriptor)
        -> (r: Result<SwapchainDescriptor, RenderError>)
        ensures
            main_assets_available(*old(c)) ==> r is Ok,
            old(c).alloc.spec_next() <= final(c).alloc.spec_next()
                <= old(c).alloc.spec_next() + 32,
            final(c).shaders.spec_compiles() <= old(c).shaders.spec_compiles() + 4,
            final(c).textures.spec_loads() <= old(c).textures.spec_loads() + 1,
            final(c).models == old(c).models,
            env_unchanged(*old(c), *final(c)),
            shaders_extended(old(c).shaders, final(c).shaders,
                set!["basic.vert"@, "basic.frag"@, "post.vert"@, "post.frag"@]),
            textures_extended(old(c).textures, final(c).textures,
                set!["gray_marble.tif"@]),
            match r {
                Ok(out) => {
                    &&& out == *input
                    &&& final(self).pre.hdr_desc == PrePass::spec_output_desc(config, *input)
                    &&& final(self).basic.zbuffer_desc == BasicPass::spec_zbuffer_desc(
                        AnyAttachmentDescriptor::TextureView(final(self).pre.hdr_desc))
                    &&& final(self).post.pipeline_info == PostPass::spec_pipeline_info(*input)
                    &&& final(self).post.source_texture == final(self).pre.hdr_texture
                    &&& main_handles_ge(*final(self), old(c).alloc.spec_next())
                    &&& main_handles_lt(*final(self), final(c).alloc.spec_next())
                },
                Err(_) => *final(self) == *old(self),
            },
    {
        match Self::construct(c, config, input) {
            Ok((new_self, output)) => {
                *self = new_self;
                Ok(output)
            },
            Err(e) => Err(e),
        }
    }
}

} // verus!
