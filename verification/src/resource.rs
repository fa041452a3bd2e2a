use vstd::prelude::*;

verus! {

/// The GPU pixel formats this renderer selects between.
#[derive(Clone, Copy, PartialEq, Eq, Structural, Debug)]
pub enum TextureFormat {
    /// 8-bit RGBA, the format chosen for 8-bit color images.
    Rgba8Unorm,
    /// 8-bit BGRA, the swapchain's format.
    Bgra8Unorm,
    /// 16-bit floating-point RGBA, the offscreen high-dynamic-range target.
    Rgba16Float,
    /// 24-bit depth, the depth buffer's format.
    Depth24Plus,
}

/// What a texture may be used for.
#[derive(Clone, Copy, PartialEq, Eq, Structural, Debug)]
pub struct TextureUsage {
    pub output_attachment: bool,
    pub sampled: bool,
    pub copy_dst: bool,
}

/// Construction-time shape of a texture, independent of any live GPU object.
#[derive(Clone, Copy, PartialEq, Eq, Structural, Debug)]
pub struct TextureDescriptor {
    pub width: u32,
    pub height: u32,
    pub format: TextureFormat,
    pub usage: TextureUsage,
    pub mip_level_count: u32,
    pub sample_count: u32,
}

/// Construction-time shape of the swapchain's presentable frames.
#[derive(Clone, Copy, PartialEq, Eq, Structural, Debug)]
pub struct SwapchainDescriptor {
    pub width: u32,
    pub height: u32,
    pub format: TextureFormat,
}

/// A color target that is either an offscreen texture view or a swapchain
/// frame, so a geometry pass can render to either.
#[derive(Clone, Copy, PartialEq, Eq, Structural, Debug)]
pub enum AnyAttachmentDescriptor {
    TextureView(TextureDescriptor),
    SwapChain(SwapchainDescriptor),
}

impl AnyAttachmentDescriptor {
    pub open spec fn spec_width(self) -> u32 {
        match self {
            AnyAttachmentDescriptor::TextureView(tview) => tview.width,
            AnyAttachmentDescriptor::SwapChain(schain) => schain.width,
        }
    }

    pub open spec fn spec_height(self) -> u32 {
        match self {
            AnyAttachmentDescriptor::TextureView(tview) => tview.height,
            AnyAttachmentDescriptor::SwapChain(schain) => schain.height,
        }
    }

    pub open spec fn spec_format(self) -> TextureFormat {
        match self {
            AnyAttachmentDescriptor::TextureView(tview) => tview.format,
            AnyAttachmentDescriptor::SwapChain(schain) => schain.format,
        }
    }

    #[inline]
    pub fn width(&self) -> (r: u32)
        ensures
            r == self.spec_width(),
    {
        match self {
            AnyAttachmentDescriptor::TextureView(tview) => tview.width,
            AnyAttachmentDescriptor::SwapChain(schain) => schain.width,
        }
    }

    #[inline]
    pub fn height(&self) -> (r: u32)
        ensures
            r == self.spec_height(),
    {
        match self {
            AnyAttachmentDescriptor::TextureView(tview) => tview.height,
            AnyAttachmentDescriptor::SwapChain(schain) => schain.height,
        }
    }

    #[inline]
    pub fn format(&self) -> (r: TextureFormat)
        ensures
            r == self.spec_format(),
    {
        match self {
            AnyAttachmentDescriptor::TextureView(tview) => tview.format,
            AnyAttachmentDescriptor::SwapChain(schain) => schain.format,
        }
    }
}

/// How a sampler filters between texels.
#[derive(Clone, Copy, PartialEq, Eq, Structural, Debug)]
pub enum FilterMode {
    Nearest,
    Linear,
}

/// The comparison a comparison sampler applies; the renderer's samplers use
/// none.
#[derive(Clone, Copy, PartialEq, Eq, Structural, Debug)]
pub enum CompareFunction {
    Never,
    Less,
    Equal,
    LessEqual,
    Greater,
    NotEqual,
    GreaterEqual,
    Always,
}

/// Construction-time shape of a sampler: its filtering and whether it
/// compares.
#[derive(Clone, Copy, PartialEq, Eq, Structural, Debug)]
pub struct SamplerDescriptor {
    pub mag_filter: FilterMode,
    pub min_filter: FilterMode,
    pub compare: Option<CompareFunction>,
}

impl SamplerDescriptor {
    /// The one sampler shape this renderer builds: linear magnification and
    /// minification filtering, no comparison.
    pub open spec fn spec_linear() -> SamplerDescriptor {
        SamplerDescriptor {
            mag_filter: FilterMode::Linear,
            min_filter: FilterMode::Linear,
            compare: None,
        }
    }

    pub fn linear() -> (r: Self)
        ensures
            r == Self::spec_linear(),
    {
        SamplerDescriptor {
            mag_filter: FilterMode::Linear,
            min_filter: FilterMode::Linear,
            compare: None,
        }
    }
}

/// What a single binding in a bind-group layout holds.
#[derive(Clone, Copy, PartialEq, Eq, Structural, Debug)]
pub enum BindingType {
    UniformBuffer,
    SampledTexture,
    Sampler,
}

/// One slot of a bind-group layout.
#[derive(Clone, Copy, PartialEq, Eq, Structural, Debug)]
pub struct BindGroupLayoutEntry {
    pub binding: u32,
    pub ty: BindingType,
}

/// The shape of a bundle of resources a pipeline reads during a draw.
#[derive(Clone, Debug)]
pub struct BindGroupLayout {
    pub entries: Vec<BindGroupLayoutEntry>,
}

impl BindGroupLayout {
    /// The layout used for every (sampled texture, sampler) pair: the texture
    /// at binding 0 and the sampler at binding 1.
    pub open spec fn spec_texture_pair() -> Seq<BindGroupLayoutEntry> {
        seq![
            BindGroupLayoutEntry { binding: 0, ty: BindingType::SampledTexture },
            BindGroupLayoutEntry { binding: 1, ty: BindingType::Sampler },
        ]
    }

    pub fn texture_pair() -> (r: Self)
        ensures
            r.entries@ == Self::spec_texture_pair(),
    {
        let mut entries: Vec<BindGroupLayoutEntry> = Vec::new();
        entries.push(BindGroupLayoutEntry { binding: 0, ty: BindingType::SampledTexture });
        entries.push(BindGroupLayoutEntry { binding: 1, ty: BindingType::Sampler });
        proof {
            assert(entries@ =~= Self::spec_texture_pair());
        }
        BindGroupLayout { entries }
    }

    /// The layout for the camera pass's two uniform buffers at bindings 0, 1.
    pub open spec fn spec_uniform_pair() -> Seq<BindGroupLayoutEntry> {
        seq![
            BindGroupLayoutEntry { binding: 0, ty: BindingType::UniformBuffer },
            BindGroupLayoutEntry { binding: 1, ty: BindingType::UniformBuffer },
        ]
    }

    pub fn uniform_pair() -> (r: Self)
        ensures
            r.entries@ == Self::spec_uniform_pair(),
    {
        let mut entries: Vec<BindGroupLayoutEntry> = Vec::new();
        entries.push(BindGroupLayoutEntry { binding: 0, ty: BindingType::UniformBuffer });
        entries.push(BindGroupLayoutEntry { binding: 1, ty: BindingType::UniformBuffer });
        proof {
            assert(entries@ =~= Self::spec_uniform_pair());
        }
        BindGroupLayout { entries }
    }
}

/// A value that is either freshly owned or borrowed from another pass's
/// storage. Handles here are identifiers, so the borrowed arm carries the
/// same identifier value rather than a reference.
#[derive(Clone, Copy, PartialEq, Eq, Structural, Debug)]
pub enum Borrow<R> {
    Owned(R),
    Borrowed(R),
}

impl<R> Borrow<R> {
    /// The carried value, whichever way it is held.
    pub open spec fn value(self) -> R {
        match self {
            Borrow::Owned(r) => r,
            Borrow::Borrowed(r) => r,
        }
    }

    #[inline]
    pub fn borrowed(&self) -> (r: Self) where R: Copy
        ensures
            r is Borrowed,
            r.value() == self.value(),
    {
        match self {
            Borrow::Owned(r) => Borrow::Borrowed(*r),
            Borrow::Borrowed(r) => Borrow::Borrowed(*r),
        }
    }

    #[inline]
    pub fn get(&self) -> (r: R) where R: Copy
        ensures
            r == self.value(),
    {
        match self {
            Borrow::Owned(r) => *r,
            Borrow::Borrowed(r) => *r,
        }
    }

    #[inline]
    pub fn try_as_mut(&mut self) -> (r: Option<&mut R>)
        ensures
            match r {
                Some(m) => *old(self) is Owned && *m == old(self).value()
                    && *final(self) == Borrow::<R>::Owned(*final(m)),
                None => *old(self) is Borrowed && *final(self) == *old(self),
            },
    {
        match self {
            Borrow::Owned(r) => Some(r),
            Borrow::Borrowed(_) => None,
        }
    }
}

/// A resource kind: the pairing of a construction-time descriptor with the
/// live handle produced at invocation time.
pub trait Resource {
    type Descriptor;
    type Handle;
}

/// A resource standing for an extra plain parameter threaded through a pass,
/// equal on the descriptor and handle sides.
pub struct With<T> {
    marker: core::marker::PhantomData<T>,
}

impl<T> Resource for With<T> {
    type Descriptor = T;
    type Handle = T;
}

impl Resource for () {
    type Descriptor = ();
    type Handle = ();
}

/// The swapchain frame resource: described by the swapchain's shape, live as
/// the frame's view identifier.
pub struct SwapchainFrame;

impl Resource for SwapchainFrame {
    type Descriptor = SwapchainDescriptor;
    type Handle = u64;
}

/// An offscreen texture resource: described by a texture descriptor, live as
/// the texture's identifier.
pub struct TextureResource;

impl Resource for TextureResource {
    type Descriptor = TextureDescriptor;
    type Handle = u64;
}

/// A color attachment that may be either a texture view or a swapchain frame.
pub struct AnyAttachment;

impl Resource for AnyAttachment {
    type Descriptor = AnyAttachmentDescriptor;
    type Handle = u64;
}

impl<A: Resource, B: Resource> Resource for (A, B) {
    type Descriptor = (A::Descriptor, B::Descriptor);
    type Handle = (A::Handle, B::Handle);
}

/// A uniform buffer owned by a pass. The uniform's contents (camera and
/// projection matrices) live with the caller that mutates them; the pass
/// re-uploads them each frame before drawing.
#[derive(Clone, Copy, PartialEq, Eq, Structural, Debug)]
pub struct Uniform {
    pub buffer: u64,
    pub size_bytes: u64,
}

impl Uniform {
    pub fn new(alloc: &mut crate::handle::HandleAllocator, size_bytes: u64) -> (r: Self)
        requires
            old(alloc).can_issue(1),
        ensures
            r.buffer == old(alloc).spec_next(),
            r.size_bytes == size_bytes,
            final(alloc).spec_next() == old(alloc).spec_next() + 1,
    {
        let buffer = alloc.issue();
        Uniform { buffer, size_bytes }
    }

    pub fn bind_type(&self) -> (r: BindingType)
        ensures
            r == BindingType::UniformBuffer,
    {
        BindingType::UniformBuffer
    }
}

} // verus!
