use render_core::handle::HandleAllocator;
use render_core::resource::{AnyAttachmentDescriptor, BindingType, Borrow, SwapchainDescriptor,
    TextureDescriptor, TextureFormat, TextureUsage, Uniform};
use render_core::state::Core;
use render_core::Scale;

fn texture_desc(width: u32, height: u32) -> TextureDescriptor {
    TextureDescriptor {
        width,
        height,
        format: TextureFormat::Rgba16Float,
        usage: TextureUsage { output_attachment: true, sampled: true, copy_dst: false },
        mip_level_count: 1,
        sample_count: 1,
    }
}

#[test]
fn scale_rounds_down() {
    assert_eq!(Scale { num: 1, den: 2 }.apply(801), 400);
    assert_eq!(Scale { num: 1, den: 2 }.apply(800), 400);
    assert_eq!(Scale { num: 1, den: 1 }.apply(1920), 1920);
    assert_eq!(Scale { num: 2, den: 3 }.apply(100), 66);
    assert_eq!(Scale { num: 1, den: 3 }.apply(0), 0);
}

#[test]
fn attachment_descriptor_reads_either_side() {
    let tv = AnyAttachmentDescriptor::TextureView(texture_desc(640, 360));
    assert_eq!(tv.width(), 640);
    assert_eq!(tv.height(), 360);
    assert!(matches!(tv.format(), TextureFormat::Rgba16Float));
    let sc = AnyAttachmentDescriptor::SwapChain(SwapchainDescriptor {
        width: 1280,
        height: 720,
        format: TextureFormat::Bgra8Unorm,
    });
    assert_eq!(sc.width(), 1280);
    assert_eq!(sc.height(), 720);
    assert!(matches!(sc.format(), TextureFormat::Bgra8Unorm));
}

#[test]
fn borrow_keeps_the_value_and_tracks_ownership() {
    let mut owned: Borrow<u64> = Borrow::Owned(5);
    assert_eq!(owned.get(), 5);
    let b = owned.borrowed();
    assert!(matches!(b, Borrow::Borrowed(5)));
    match owned.try_as_mut() {
        Some(v) => *v = 6,
        None => panic!("owned value must be mutable"),
    }
    assert_eq!(owned.get(), 6);
    let mut shared: Borrow<u64> = Borrow::Borrowed(7);
    assert!(shared.try_as_mut().is_none());
    assert_eq!(shared.get(), 7);
}

#[test]
fn allocator_issues_distinct_identifiers() {
    let mut alloc = HandleAllocator::new();
    let a = alloc.issue();
    let b = alloc.issue();
    let c = alloc.issue();
    assert_ne!(a, b);
    assert_ne!(b, c);
    assert_ne!(a, c);
    assert!(alloc.has_headroom(10, 4));
}

#[test]
fn uniforms_carry_fresh_buffers_and_uniform_binding() {
    let mut alloc = HandleAllocator::new();
    let u1 = Uniform::new(&mut alloc, 112);
    let u2 = Uniform::new(&mut alloc, 64);
    assert_ne!(u1.buffer, u2.buffer);
    assert_eq!(u1.size_bytes, 112);
    assert!(matches!(u1.bind_type(), BindingType::UniformBuffer));
}

#[test]
fn resize_keeps_format_and_replaces_the_swapchain() {
    let sc = SwapchainDescriptor { width: 640, height: 480, format: TextureFormat::Bgra8Unorm };
    let mut core = Core::new(sc, render_core::state::AssetStore::new(), true);
    let old_swap = core.swap_chain;
    core.handle_window_resize(1920, 1080);
    assert_eq!(core.sc_desc.width, 1920);
    assert_eq!(core.sc_desc.height, 1080);
    assert!(matches!(core.sc_desc.format, TextureFormat::Bgra8Unorm));
    assert_ne!(core.swap_chain, old_swap);
}
