use vstd::prelude::*;
use crate::err::RenderError;
use crate::handle::HandleAllocator;
use crate::namemap::NameMap;
use crate::resource::{BindGroupLayout, SamplerDescriptor, TextureDescriptor, TextureFormat,
    TextureUsage};

verus! {

/// The pixel layout a decoded image file reports. Layouts the renderer does
/// not upload are collapsed into `Other`.
#[derive(Clone, Copy, PartialEq, Eq, Structural, Debug)]
pub enum PixelLayout {
    Rgb8,
    Rgba8,
    Bgra8,
    Rgba16,
    Other,
}

/// What decoding an image file yields: its dimensions and pixel layout.
#[derive(Clone, Copy, PartialEq, Eq, Structural, Debug)]
pub struct DecodedImage {
    pub width: u32,
    pub height: u32,
    pub layout: PixelLayout,
}

/// What the image decoder yields on the given file bytes, `None` when the
/// bytes decode as no supported image file. The result depends on the bytes
/// alone.
pub uninterp spec fn decoded_image(data: Seq<u8>) -> Option<DecodedImage>;

/// Relies on image::guess_format (a pure magic-bytes sniff) followed by
/// image::load_from_memory_with_format, whose built-in path consults no
/// process-global registry, so the decoded dimensions and color type depend
/// on the bytes alone.
#[verifier::external_body]
fn decode_image(data: &Vec<u8>) -> (r: Result<DecodedImage, String>)
    ensures
        match r {
            Ok(d) => decoded_image(data@) == Some(d),
            Err(_) => decoded_image(data@) is None,
        },
{
    let decoded = image::guess_format(data)
        .and_then(|format| image::load_from_memory_with_format(data, format));
    let img = match decoded {
        Ok(img) => img,
        Err(e) => {
            return Err(format!("{}", e));
        },
    };
    let layout = match img.color() {
        image::ColorType::Rgb8 => PixelLayout::Rgb8,
        image::ColorType::Rgba8 => PixelLayout::Rgba8,
        image::ColorType::Rgba16 => PixelLayout::Rgba16,
        _ => PixelLayout::Other,
    };
    Ok(DecodedImage { width: img.width(), height: img.height(), layout })
}

/// The GPU format and bytes-per-pixel chosen for a pixel layout, `None` for
/// layouts that are a fatal load error. 8-bit RGB data is expanded to RGBA
/// on upload, so both map to the RGBA8 format.
pub open spec fn spec_select_format(layout: PixelLayout) -> Option<(TextureFormat, u64)> {
    match layout {
        PixelLayout::Rgb8 => Some((TextureFormat::Rgba8Unorm, 4)),
        PixelLayout::Rgba8 => Some((TextureFormat::Rgba8Unorm, 4)),
        PixelLayout::Bgra8 => Some((TextureFormat::Bgra8Unorm, 4)),
        PixelLayout::Rgba16 => Some((TextureFormat::Rgba16Float, 8)),
        PixelLayout::Other => None,
    }
}

pub fn select_format(layout: PixelLayout) -> (r: Option<(TextureFormat, u64)>)
    ensures
        r == spec_select_format(layout),
{
    match layout {
        PixelLayout::Rgb8 => Some((TextureFormat::Rgba8Unorm, 4)),
        PixelLayout::Rgba8 => Some((TextureFormat::Rgba8Unorm, 4)),
        PixelLayout::Bgra8 => Some((TextureFormat::Bgra8Unorm, 4)),
        PixelLayout::Rgba16 => Some((TextureFormat::Rgba16Float, 8)),
        PixelLayout::Other => None,
    }
}

/// A reason a texture load failed, at the level of the mathematical model.
pub enum TextureIssue {
    NotFound { name: Seq<char> },
    DecodeFailed { name: Seq<char> },
    Unsupported { name: Seq<char> },
}

pub open spec fn texture_issue_matches_error(issue: TextureIssue, e: RenderError) -> bool {
    match issue {
        TextureIssue::NotFound { name } =>
            e matches RenderError::NotFound { name: en } && en@ == name,
        TextureIssue::DecodeFailed { name } =>
            e matches RenderError::DecodeFailed { name: en } && en@ == name,
        TextureIssue::Unsupported { name } =>
            e matches RenderError::UnsupportedFormat { name: en } && en@ == name,
    }
}

/// What loading the named texture file must yield: the decoded shape with
/// the chosen GPU format and bytes-per-pixel, or the issue that stops it.
pub open spec fn spec_texture_build(files: Map<Seq<char>, Vec<u8>>, name: Seq<char>)
    -> Result<(DecodedImage, TextureFormat, u64), TextureIssue>
{
    if !files.contains_key(name) {
        Err(TextureIssue::NotFound { name })
    } else {
        match decoded_image(files[name]@) {
            None => Err(TextureIssue::DecodeFailed { name }),
            Some(d) => match spec_select_format(d.layout) {
                None => Err(TextureIssue::Unsupported { name }),
                Some((format, bpp)) => Ok((d, format, bpp)),
            },
        }
    }
}

/// A decoded and uploaded texture: the live texture and sampler, the chosen
/// format, the descriptors both were allocated with, the upload row stride,
/// and the (texture, sampler) bind-group layout.
pub struct TextureCacheEntry {
    pub texture: u64,
    pub sampler: u64,
    pub format: TextureFormat,
    pub desc: TextureDescriptor,
    pub sampler_desc: SamplerDescriptor,
    pub bytes_per_row: u64,
    pub bind_layout: BindGroupLayout,
}

/// A caller's view of a cached texture.
#[derive(Clone, Copy, PartialEq, Eq, Structural, Debug)]
pub struct TextureRef {
    pub texture: u64,
    pub sampler: u64,
    pub format: TextureFormat,
}

pub open spec fn spec_texture_ref(e: TextureCacheEntry) -> TextureRef {
    TextureRef { texture: e.texture, sampler: e.sampler, format: e.format }
}

/// The descriptor a texture upload allocates for a decoded image.
pub open spec fn spec_upload_desc(d: DecodedImage, format: TextureFormat) -> TextureDescriptor {
    TextureDescriptor {
        width: d.width,
        height: d.height,
        format,
        usage: TextureUsage { output_attachment: false, sampled: true, copy_dst: true },
        mip_level_count: 1,
        sample_count: 1,
    }
}

/// The entry a successful texture load must have produced, given the first
/// fresh identifier it was built from.
pub open spec fn texture_entry_is(
    e: TextureCacheEntry,
    first_handle: u64,
    d: DecodedImage,
    format: TextureFormat,
    bpp: u64,
) -> bool {
    &&& e.texture == first_handle
    &&& e.sampler == first_handle + 1
    &&& e.format == format
    &&& e.desc == spec_upload_desc(d, format)
    &&& e.sampler_desc == SamplerDescriptor::spec_linear()
    &&& e.bytes_per_row == bpp * d.width
    &&& e.bind_layout.entries@ == BindGroupLayout::spec_texture_pair()
}

/// How one `TextureCache::load` call relates the state after to the state
/// before: a hit changes nothing and returns the memoized texture; a miss
/// either registers exactly one freshly decoded and uploaded entry or fails
/// with the build's issue and changes nothing.
pub open spec fn texture_load_post(
    pre: TextureCache,
    pre_alloc: HandleAllocator,
    files: Map<Seq<char>, Vec<u8>>,
    name: Seq<char>,
    post: TextureCache,
    post_alloc: HandleAllocator,
    r: Result<TextureRef, RenderError>,
) -> bool {
    &&& pre.entries().contains_key(name) ==> {
        &&& r matches Ok(tref) && tref == spec_texture_ref(pre.entries()[name])
        &&& post.entries() == pre.entries()
        &&& post.spec_loads() == pre.spec_loads()
        &&& post_alloc == pre_alloc
    }
    &&& !pre.entries().contains_key(name) ==> match spec_texture_build(files, name) {
        Ok((d, format, bpp)) => {
            &&& r matches Ok(tref) && tref == (TextureRef {
                texture: pre_alloc.spec_next(),
                sampler: (pre_alloc.spec_next() + 1) as u64,
                format,
            })
            &&& post_alloc.spec_next() == pre_alloc.spec_next() + 2
            &&& post.spec_loads() == pre.spec_loads() + 1
            &&& post.entries().contains_key(name)
            &&& texture_entry_is(post.entries()[name], pre_alloc.spec_next(), d, format, bpp)
            &&& post.entries() == pre.entries().insert(name, post.entries()[name])
        },
        Err(issue) => {
            &&& r matches Err(e) && texture_issue_matches_error(issue, e)
            &&& post.entries() == pre.entries()
            &&& post.spec_loads() == pre.spec_loads()
            &&& post_alloc == pre_alloc
        },
    }
}

/// Decodes image files into live textures with samplers and a
/// (texture, sampler) bind-group layout, memoized by file name.
///
/// `spec_loads` is the load-count instrumentation: it counts actual
/// decode-and-upload operations performed.
pub struct TextureCache {
    cache: NameMap<TextureCacheEntry>,
    load_count: u64,
}

impl TextureCache {
    pub closed spec fn entries(&self) -> Map<Seq<char>, TextureCacheEntry> {
        self.cache@
    }

    pub closed spec fn spec_loads(&self) -> u64 {
        self.load_count
    }

    pub fn new() -> (r: Self)
        ensures
            r.entries() == Map::<Seq<char>, TextureCacheEntry>::empty(),
            r.spec_loads() == 0,
    {
        TextureCache { cache: NameMap::new(), load_count: 0 }
    }

    /// The load-count instrumentation: how many decode-and-uploads have run.
    pub fn loads(&self) -> (r: u64)
        ensures
            r == self.spec_loads(),
    {
        self.load_count
    }

    /// Look at a cached entry without loading anything.
    pub fn get<'a>(&'a self, name: &str) -> (r: Option<&'a TextureCacheEntry>)
        ensures
            match r {
                Some(e) => self.entries().contains_key(name@) && *e == self.entries()[name@],
                None => !self.entries().contains_key(name@),
            },
    {
        self.cache.get(name)
    }

    /// Load the named texture: return the memoized entry, or decode the file
    /// from `files`, select its GPU format, and upload it, issuing fresh
    /// texture and sampler identifiers and counting exactly one load.
    pub fn load(&mut self, alloc: &mut HandleAllocator, files: &NameMap<Vec<u8>>, name: &str)
        -> (r: Result<TextureRef, RenderError>)
        requires
            old(alloc).can_issue(2),
            old(self).spec_loads() < u64::MAX,
        ensures
            texture_load_post(*old(self), *old(alloc), files@, name@,
                *final(self), *final(alloc), r),
    {
        match self.cache.get(name) {
            Some(e) => {
                return Ok(TextureRef { texture: e.texture, sampler: e.sampler, format: e.format });
            },
            None => {},
        }
        let data = match files.get(name) {
            None => {
                return Err(RenderError::NotFound { name: name.to_owned() });
            },
            Some(d) => d,
        };
        let decoded = match decode_image(data) {
            Ok(d) => d,
            Err(_diag) => {
                return Err(RenderError::DecodeFailed { name: name.to_owned() });
            },
        };
        let (format, bpp) = match select_format(decoded.layout) {
            None => {
                return Err(RenderError::UnsupportedFormat { name: name.to_owned() });
            },
            Some(pair) => pair,
        };
        let texture = alloc.issue();
        let sampler = alloc.issue();
        let desc = TextureDescriptor {
            width: decoded.width,
            height: decoded.height,
            format,
            usage: TextureUsage { output_attachment: false, sampled: true, copy_dst: true },
            mip_level_count: 1,
            sample_count: 1,
        };
        proof {
            assert(bpp * decoded.width <= 8 * 0xffff_ffffu64) by (nonlinear_arith)
                requires bpp <= 8, decoded.width <= 0xffff_ffffu64;
        }
        let bytes_per_row: u64 = bpp * decoded.width as u64;
        self.load_count = self.load_count + 1;
        let entry = TextureCacheEntry {
            texture,
            sampler,
            format,
            desc,
            sampler_desc: SamplerDescriptor::linear(),
            bytes_per_row,
            bind_layout: BindGroupLayout::texture_pair(),
        };
        self.cache.insert(name.to_owned(), entry);
        Ok(TextureRef { texture, sampler, format })
    }

    /// Drop the entry for `name`, so the next load decodes afresh.
    pub fn invalidate(&mut self, name: &str)
        ensures
            final(self).entries() == old(self).entries().remove(name@),
            final(self).spec_loads() == old(self).spec_loads(),
    {
        self.cache.remove(name);
    }

    /// Drop every entry.
    pub fn clear(&mut self)
        ensures
            final(self).entries() == Map::<Seq<char>, TextureCacheEntry>::empty(),
            final(self).spec_loads() == old(self).spec_loads(),
    {
        self.cache.clear();
    }
}

} // verus!
