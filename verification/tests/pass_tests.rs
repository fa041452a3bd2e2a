use render_core::err::RenderError;
use render_core::passes::{MainPass, Pass};
use render_core::resource::{FilterMode, SwapchainDescriptor, TextureFormat};
use render_core::state::{AssetStore, Core};
use render_core::Scale;

const TORUS_OBJ: &str = "o Torus\n\
v 0 0 0\nv 1 0 0\nv 0 1 0\n\
vt 0 0\nvt 1 0\nvt 0 1\n\
vn 0 0 1\n\
f 1/1/1 2/2/1 3/3/1\n";

const FLAT_OBJ: &str = "o Torus\n\
v 0 0 0\nv 1 0 0\nv 0 1 0\n\
f 1 2 3\n";

fn rgba8_tiff(width: u32, height: u32) -> Vec<u8> {
    let img = image::RgbaImage::from_pixel(width, height, image::Rgba([120, 120, 120, 255]));
    let mut cur = std::io::Cursor::new(Vec::new());
    image::DynamicImage::ImageRgba8(img).write_to(&mut cur, image::ImageFormat::Tiff).unwrap();
    cur.into_inner()
}

fn demo_store() -> AssetStore {
    let mut store = AssetStore::new();
    store.shader_files.insert("basic.vert".to_string(), "void main() {}".to_string());
    store.shader_files.insert("basic.frag".to_string(), "void main() {}".to_string());
    store.shader_files.insert("post.vert".to_string(), "void main() {}".to_string());
    store.shader_files.insert("post.frag".to_string(), "void main() {}".to_string());
    store.texture_files.insert("gray_marble.tif".to_string(), rgba8_tiff(4, 2));
    store.model_files.insert("torus.obj".to_string(), TORUS_OBJ.to_string());
    store
}

fn swapchain(width: u32, height: u32) -> SwapchainDescriptor {
    SwapchainDescriptor { width, height, format: TextureFormat::Bgra8Unorm }
}

fn main_pass_handles(pass: &MainPass) -> Vec<u64> {
    vec![
        pass.pre.hdr_texture,
        pass.basic.camera.buffer,
        pass.basic.project.buffer,
        pass.basic.u_cam_group,
        pass.basic.u_tex_group,
        pass.basic.pipeline,
        pass.basic.zbuffer,
        pass.post.sampler,
        pass.post.tex_view,
        pass.post.tex_group,
        pass.post.pipeline,
    ]
}

#[test]
fn full_scale_pipeline_matches_swapchain_dimensions() {
    let sc = swapchain(1920, 1080);
    let mut core = Core::new(sc, demo_store(), false);
    let (pass, out) = MainPass::construct(&mut core, Scale { num: 1, den: 1 }, &sc).unwrap();
    assert_eq!(out, sc);
    assert_eq!(pass.pre.hdr_desc.width, 1920);
    assert_eq!(pass.pre.hdr_desc.height, 1080);
    assert!(matches!(pass.pre.hdr_desc.format, TextureFormat::Rgba16Float));
    assert_eq!(pass.basic.zbuffer_desc.width, 1920);
    assert_eq!(pass.basic.zbuffer_desc.height, 1080);
    assert!(matches!(pass.basic.zbuffer_desc.format, TextureFormat::Depth24Plus));
    assert!(matches!(pass.post.pipeline_info.color_format, TextureFormat::Bgra8Unorm));
    assert!(matches!(pass.post.sampler_desc.mag_filter, FilterMode::Linear));
    assert!(matches!(pass.post.sampler_desc.min_filter, FilterMode::Linear));
    assert!(pass.post.sampler_desc.compare.is_none());
    assert_eq!(pass.post.source_texture, pass.pre.hdr_texture);
}

#[test]
fn half_scale_pipeline_halves_the_offscreen_target() {
    let sc = swapchain(800, 600);
    let mut core = Core::new(sc, demo_store(), false);
    let (pass, _out) = MainPass::construct(&mut core, Scale { num: 1, den: 2 }, &sc).unwrap();
    assert_eq!(pass.pre.hdr_desc.width, 400);
    assert_eq!(pass.pre.hdr_desc.height, 300);
    assert_eq!(pass.basic.zbuffer_desc.width, 400);
    assert_eq!(pass.basic.zbuffer_desc.height, 300);
}

#[test]
fn construction_is_deterministic_in_config_and_input() {
    let sc = swapchain(1280, 720);
    let mut core1 = Core::new(sc, demo_store(), false);
    let mut core2 = Core::new(sc, demo_store(), false);
    let (p1, o1) = MainPass::construct(&mut core1, Scale { num: 2, den: 3 }, &sc).unwrap();
    let (p2, o2) = MainPass::construct(&mut core2, Scale { num: 2, den: 3 }, &sc).unwrap();
    assert_eq!(o1, o2);
    assert_eq!(p1.pre.hdr_desc, p2.pre.hdr_desc);
    assert_eq!(p1.basic.zbuffer_desc, p2.basic.zbuffer_desc);
    assert_eq!(p1.basic.pipeline_info, p2.basic.pipeline_info);
    assert_eq!(p1.post.pipeline_info, p2.post.pipeline_info);
}

#[test]
fn construction_loads_each_asset_once() {
    let sc = swapchain(640, 480);
    let mut core = Core::new(sc, demo_store(), false);
    let _ = MainPass::construct(&mut core, Scale { num: 1, den: 1 }, &sc).unwrap();
    assert_eq!(core.shaders.compiles(), 4);
    assert_eq!(core.textures.loads(), 1);
    let sc_desc = core.sc_desc;
    let _ = MainPass::construct(&mut core, Scale { num: 1, den: 1 }, &sc_desc).unwrap();
    assert_eq!(core.shaders.compiles(), 4);
    assert_eq!(core.textures.loads(), 1);
}

#[test]
fn perform_chains_the_three_passes() {
    let sc = swapchain(320, 200);
    let mut core = Core::new(sc, demo_store(), false);
    let (mut pass, _) = MainPass::construct(&mut core, Scale { num: 1, den: 1 }, &sc).unwrap();
    let frame: u64 = 7777;
    let out = pass.perform(&mut core, (), frame).unwrap();
    assert_eq!(out, frame);
    let draw = pass.basic.last_draw.unwrap();
    assert!(draw.cleared);
    assert_eq!(draw.index_count, 3);
    assert_eq!(draw.uploaded_camera, pass.basic.camera.buffer);
    assert_eq!(draw.uploaded_project, pass.basic.project.buffer);
    assert_eq!(draw.pipeline, pass.basic.pipeline);
    let post_draw = pass.post.last_draw.unwrap();
    assert_eq!(post_draw.target, frame);
    assert_eq!(post_draw.vertex_count, 3);
    assert!(!post_draw.cleared);
    assert_eq!(core.models.loads(), 1);
    let out2 = pass.perform(&mut core, (), frame).unwrap();
    assert_eq!(out2, frame);
    assert_eq!(core.models.loads(), 1);
}

#[test]
fn model_without_required_attributes_fails_the_draw() {
    let sc = swapchain(320, 200);
    let mut store = demo_store();
    store.model_files.insert("torus.obj".to_string(), FLAT_OBJ.to_string());
    let mut core = Core::new(sc, store, false);
    let (mut pass, _) = MainPass::construct(&mut core, Scale { num: 1, den: 1 }, &sc).unwrap();
    let e = pass.perform(&mut core, (), 1).unwrap_err();
    assert!(matches!(e, RenderError::MissingAttribute { .. }));
}

#[test]
fn missing_shader_fails_construction() {
    let sc = swapchain(320, 200);
    let mut store = demo_store();
    store.shader_files.remove("post.frag");
    let mut core = Core::new(sc, store, false);
    let e = match MainPass::construct(&mut core, Scale { num: 1, den: 1 }, &sc) {
        Err(e) => e,
        Ok(_) => panic!("construction must fail without the shader"),
    };
    assert!(matches!(e, RenderError::NotFound { name } if name == "post.frag"));
}

#[test]
fn refresh_rebuilds_to_new_dimensions_with_fresh_objects() {
    let sc1 = swapchain(800, 600);
    let mut core = Core::new(sc1, demo_store(), false);
    let (mut pass, _) = MainPass::construct(&mut core, Scale { num: 1, den: 1 }, &sc1).unwrap();
    let old_handles = main_pass_handles(&pass);
    core.handle_window_resize(1024, 768);
    let sc2 = core.sc_desc;
    let out = pass.refresh(&mut core, Scale { num: 1, den: 1 }, &sc2).unwrap();
    assert_eq!(out, sc2);
    assert_eq!(pass.pre.hdr_desc.width, 1024);
    assert_eq!(pass.pre.hdr_desc.height, 768);
    assert_eq!(pass.basic.zbuffer_desc.width, 1024);
    assert_eq!(pass.basic.zbuffer_desc.height, 768);
    for h in main_pass_handles(&pass) {
        assert!(!old_handles.contains(&h));
    }
    let frame: u64 = 9999;
    pass.perform(&mut core, (), frame).unwrap();
    let draw = pass.basic.last_draw.unwrap();
    assert!(!old_handles.contains(&draw.depth_view));
    assert!(!old_handles.contains(&draw.color_target));
}

#[test]
fn clear_caches_forces_full_reload_on_refresh() {
    let sc = swapchain(640, 480);
    let mut core = Core::new(sc, demo_store(), false);
    let (mut pass, _) = MainPass::construct(&mut core, Scale { num: 1, den: 1 }, &sc).unwrap();
    assert_eq!(core.shaders.compiles(), 4);
    core.clear_caches();
    let sc_desc = core.sc_desc;
    pass.refresh(&mut core, Scale { num: 1, den: 1 }, &sc_desc).unwrap();
    assert_eq!(core.shaders.compiles(), 8);
    assert_eq!(core.textures.loads(), 2);
}
