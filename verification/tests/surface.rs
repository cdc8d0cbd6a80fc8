use game_engine::surface::{surface_config, Renderer, TextureUsage, FRAME_LATENCY};
use wgpu::{CompositeAlphaMode, PresentMode, TextureFormat};

fn renderer(width: u32, height: u32, format: TextureFormat) -> Renderer {
    Renderer::new(surface_config(
        width,
        height,
        &vec![format, TextureFormat::Rgba16Float],
        &vec![PresentMode::Fifo, PresentMode::Mailbox],
        &vec![CompositeAlphaMode::Opaque],
    ))
}

#[test]
fn config_takes_first_of_each_list() {
    let c = surface_config(
        800,
        600,
        &vec![TextureFormat::Bgra8Unorm, TextureFormat::Rgba8Unorm],
        &vec![PresentMode::Mailbox, PresentMode::Fifo],
        &vec![CompositeAlphaMode::PreMultiplied, CompositeAlphaMode::Opaque],
    );
    assert_eq!(c.width, 800);
    assert_eq!(c.height, 600);
    assert_eq!(c.format, TextureFormat::Bgra8Unorm);
    assert_eq!(c.present_mode, PresentMode::Mailbox);
    assert_eq!(c.alpha_mode, CompositeAlphaMode::PreMultiplied);
    assert_eq!(c.desired_maximum_frame_latency, 2);
    assert_eq!(FRAME_LATENCY, 2);
    assert_eq!(c.usage, TextureUsage { render_attachment: true, texture_binding: false, copy_dst: false });
    assert!(c.view_formats.is_empty());
}

#[test]
fn resize_to_nonzero_size_reconfigures() {
    let mut r = renderer(800, 600, TextureFormat::Bgra8Unorm);
    assert!(r.resize(1024, 768));
    assert_eq!(r.size(), (1024, 768));
    assert_eq!(r.config().format, TextureFormat::Bgra8Unorm);
}

#[test]
fn resize_with_zero_side_is_ignored() {
    let mut r = renderer(800, 600, TextureFormat::Bgra8Unorm);
    assert!(!r.resize(0, 768));
    assert!(!r.resize(1024, 0));
    assert!(!r.resize(0, 0));
    assert_eq!(r.size(), (800, 600));
}

#[test]
fn resize_twice_to_same_size_is_idempotent() {
    let mut r = renderer(1, 1, TextureFormat::Bgra8Unorm);
    assert!(r.resize(640, 480));
    assert!(r.resize(640, 480));
    assert_eq!(r.size(), (640, 480));
}

#[test]
fn size_is_last_nonzero_resize() {
    let mut r = renderer(10, 10, TextureFormat::Bgra8Unorm);
    r.resize(30, 40);
    r.resize(0, 50);
    r.resize(60, 0);
    assert_eq!(r.size(), (30, 40));
}

#[test]
fn initial_size_may_be_zero() {
    let r = renderer(0, 0, TextureFormat::Bgra8Unorm);
    assert_eq!(r.size(), (0, 0));
    assert_eq!(r.depth_extent(), (1, 1));
}

#[test]
fn depth_texture_matches_surface() {
    let mut r = renderer(800, 600, TextureFormat::Bgra8Unorm);
    assert_eq!(r.depth_extent(), (800, 600));
    r.resize(320, 200);
    assert_eq!(r.depth_extent(), (320, 200));
    assert_eq!(renderer(0, 7, TextureFormat::Bgra8Unorm).depth_extent(), (1, 7));
}

#[test]
fn color_format_is_srgb_twin() {
    assert_eq!(renderer(1, 1, TextureFormat::Bgra8Unorm).color_format(), TextureFormat::Bgra8UnormSrgb);
    assert_eq!(renderer(1, 1, TextureFormat::Rgba8Unorm).color_format(), TextureFormat::Rgba8UnormSrgb);
    assert_eq!(renderer(1, 1, TextureFormat::Rgba16Float).color_format(), TextureFormat::Rgba16Float);
    assert_eq!(renderer(1, 1, TextureFormat::Bgra8UnormSrgb).color_format(), TextureFormat::Bgra8UnormSrgb);
}
