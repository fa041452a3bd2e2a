use render_core::err::RenderError;
use render_core::handle::HandleAllocator;
use render_core::namemap::NameMap;
use render_core::resource::{BindingType, FilterMode, TextureFormat};
use render_core::textures::TextureCache;

fn encode<I: Into<image::DynamicImage>>(img: I, format: image::ImageFormat) -> Vec<u8> {
    let mut cur = std::io::Cursor::new(Vec::new());
    img.into().write_to(&mut cur, format).unwrap();
    cur.into_inner()
}

fn rgba8_tiff(width: u32, height: u32) -> Vec<u8> {
    let img = image::RgbaImage::from_pixel(width, height, image::Rgba([120, 120, 120, 255]));
    encode(img, image::ImageFormat::Tiff)
}

fn rgb8_png(width: u32, height: u32) -> Vec<u8> {
    let img = image::RgbImage::from_pixel(width, height, image::Rgb([10, 20, 30]));
    encode(img, image::ImageFormat::Png)
}

fn rgba16_png(width: u32, height: u32) -> Vec<u8> {
    let img = image::ImageBuffer::<image::Rgba<u16>, Vec<u16>>::from_pixel(
        width, height, image::Rgba([1000, 2000, 3000, 65535]));
    encode(img, image::ImageFormat::Png)
}

fn luma16_png(width: u32, height: u32) -> Vec<u8> {
    let img = image::ImageBuffer::<image::Luma<u16>, Vec<u16>>::from_pixel(
        width, height, image::Luma([4000]));
    encode(img, image::ImageFormat::Png)
}

#[test]
fn rgba8_file_maps_to_rgba8_format_with_paired_layout() {
    let mut files: NameMap<Vec<u8>> = NameMap::new();
    files.insert("gray_marble.tif".to_string(), rgba8_tiff(4, 2));
    let mut alloc = HandleAllocator::new();
    let mut cache = TextureCache::new();
    let tref = cache.load(&mut alloc, &files, "gray_marble.tif").unwrap();
    assert!(matches!(tref.format, TextureFormat::Rgba8Unorm));
    let entry = cache.get("gray_marble.tif").unwrap();
    assert_eq!(entry.bind_layout.entries.len(), 2);
    assert_eq!(entry.bind_layout.entries[0].binding, 0);
    assert!(matches!(entry.bind_layout.entries[0].ty, BindingType::SampledTexture));
    assert_eq!(entry.bind_layout.entries[1].binding, 1);
    assert!(matches!(entry.bind_layout.entries[1].ty, BindingType::Sampler));
    assert_eq!(entry.desc.width, 4);
    assert_eq!(entry.desc.height, 2);
    assert_eq!(entry.bytes_per_row, 16);
    assert_ne!(entry.texture, entry.sampler);
    assert!(matches!(entry.sampler_desc.mag_filter, FilterMode::Linear));
    assert!(matches!(entry.sampler_desc.min_filter, FilterMode::Linear));
    assert!(entry.sampler_desc.compare.is_none());
}

#[test]
fn texture_load_decodes_once_and_memoizes() {
    let mut files: NameMap<Vec<u8>> = NameMap::new();
    files.insert("gray_marble.tif".to_string(), rgba8_tiff(4, 2));
    let mut alloc = HandleAllocator::new();
    let mut cache = TextureCache::new();
    let r1 = cache.load(&mut alloc, &files, "gray_marble.tif").unwrap();
    assert_eq!(cache.loads(), 1);
    let r2 = cache.load(&mut alloc, &files, "gray_marble.tif").unwrap();
    assert_eq!(cache.loads(), 1);
    assert_eq!(r1, r2);
}

#[test]
fn texture_invalidate_forces_fresh_decode() {
    let mut files: NameMap<Vec<u8>> = NameMap::new();
    files.insert("gray_marble.tif".to_string(), rgba8_tiff(4, 2));
    let mut alloc = HandleAllocator::new();
    let mut cache = TextureCache::new();
    let r1 = cache.load(&mut alloc, &files, "gray_marble.tif").unwrap();
    cache.invalidate("gray_marble.tif");
    let r2 = cache.load(&mut alloc, &files, "gray_marble.tif").unwrap();
    assert_eq!(cache.loads(), 2);
    assert_ne!(r1.texture, r2.texture);
}

#[test]
fn rgb8_file_expands_to_rgba8_format() {
    let mut files: NameMap<Vec<u8>> = NameMap::new();
    files.insert("wall.png".to_string(), rgb8_png(3, 3));
    let mut alloc = HandleAllocator::new();
    let mut cache = TextureCache::new();
    let tref = cache.load(&mut alloc, &files, "wall.png").unwrap();
    assert!(matches!(tref.format, TextureFormat::Rgba8Unorm));
    assert_eq!(cache.get("wall.png").unwrap().bytes_per_row, 12);
}

#[test]
fn rgba16_file_maps_to_rgba16_float() {
    let mut files: NameMap<Vec<u8>> = NameMap::new();
    files.insert("sky.png".to_string(), rgba16_png(2, 2));
    let mut alloc = HandleAllocator::new();
    let mut cache = TextureCache::new();
    let tref = cache.load(&mut alloc, &files, "sky.png").unwrap();
    assert!(matches!(tref.format, TextureFormat::Rgba16Float));
    assert_eq!(cache.get("sky.png").unwrap().bytes_per_row, 16);
}

#[test]
fn unsupported_layout_is_fatal() {
    let mut files: NameMap<Vec<u8>> = NameMap::new();
    files.insert("depthmap.png".to_string(), luma16_png(2, 2));
    let mut alloc = HandleAllocator::new();
    let mut cache = TextureCache::new();
    let e = cache.load(&mut alloc, &files, "depthmap.png").unwrap_err();
    assert!(matches!(e, RenderError::UnsupportedFormat { name } if name == "depthmap.png"));
    assert_eq!(cache.loads(), 0);
}

#[test]
fn undecodable_bytes_are_fatal() {
    let mut files: NameMap<Vec<u8>> = NameMap::new();
    files.insert("broken.png".to_string(), vec![1, 2, 3, 4, 5]);
    let mut alloc = HandleAllocator::new();
    let mut cache = TextureCache::new();
    let e = cache.load(&mut alloc, &files, "broken.png").unwrap_err();
    assert!(matches!(e, RenderError::DecodeFailed { name } if name == "broken.png"));
}

#[test]
fn missing_texture_file_is_not_found() {
    let files: NameMap<Vec<u8>> = NameMap::new();
    let mut alloc = HandleAllocator::new();
    let mut cache = TextureCache::new();
    let e = cache.load(&mut alloc, &files, "gone.png").unwrap_err();
    assert!(matches!(e, RenderError::NotFound { name } if name == "gone.png"));
}
