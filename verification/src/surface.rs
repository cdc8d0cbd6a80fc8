use vstd::prelude::*;

verus! {

#[verifier::external_type_specification]
#[verifier::external_body]
pub struct ExTextureFormat(wgpu::TextureFormat);

#[verifier::external_type_specification]
#[verifier::external_body]
pub struct ExPresentMode(wgpu::PresentMode);

#[verifier::external_type_specification]
#[verifier::external_body]
pub struct ExCompositeAlphaMode(wgpu::CompositeAlphaMode);

/// The sRGB twin of a texture format (the format itself when it has none).
pub uninterp spec fn srgb_format(format: wgpu::TextureFormat) -> wgpu::TextureFormat;

/// Calls `wgpu::TextureFormat::add_srgb_suffix`, which maps a format with
/// an sRGB variant to that variant and leaves every other format unchanged.
/// The contract names its result and claims nothing more of it.
#[verifier::external_body]
fn add_srgb_suffix(format: wgpu::TextureFormat) -> (r: wgpu::TextureFormat)
    ensures
        r == srgb_format(format),
{
    format.add_srgb_suffix()
}

/// The ways a texture may be used.
#[derive(PartialEq, Eq, Structural, Clone, Copy, Debug)]
pub struct TextureUsage {
    pub render_attachment: bool,
    pub texture_binding: bool,
    pub copy_dst: bool,
}

/// The usage of the surface's textures: render targets only.
pub open spec fn surface_usage() -> TextureUsage {
    TextureUsage { render_attachment: true, texture_binding: false, copy_dst: false }
}

/// The configuration of the presentation surface.
pub struct SurfaceConfig {
    pub usage: TextureUsage,
    pub width: u32,
    pub height: u32,
    pub format: wgpu::TextureFormat,
    /// Further formats views of the surface's textures may take.
    pub view_formats: Vec<wgpu::TextureFormat>,
    pub present_mode: wgpu::PresentMode,
    pub alpha_mode: wgpu::CompositeAlphaMode,
    pub desired_maximum_frame_latency: u32,
}

/// The number of frames the surface may queue ahead of presentation.
pub const FRAME_LATENCY: u32 = 2;

/// Chooses the surface configuration for a window of the given size: the
/// first format, present mode and alpha mode the adapter offers.
pub fn surface_config(
    width: u32,
    height: u32,
    formats: &Vec<wgpu::TextureFormat>,
    present_modes: &Vec<wgpu::PresentMode>,
    alpha_modes: &Vec<wgpu::CompositeAlphaMode>,
) -> (r: SurfaceConfig)
    requires
        formats.len() > 0,
        present_modes.len() > 0,
        alpha_modes.len() > 0,
    ensures
        r.usage == surface_usage(),
        r.view_formats@ == Seq::<wgpu::TextureFormat>::empty(),
        r.width == width,
        r.height == height,
        r.format == formats@[0],
        r.present_mode == present_modes@[0],
        r.alpha_mode == alpha_modes@[0],
        r.desired_maximum_frame_latency == FRAME_LATENCY,
{
    SurfaceConfig {
        usage: TextureUsage { render_attachment: true, texture_binding: false, copy_dst: false },
        width,
        height,
        format: formats[0],
        view_formats: Vec::new(),
        present_mode: present_modes[0],
        alpha_mode: alpha_modes[0],
        desired_maximum_frame_latency: FRAME_LATENCY,
    }
}

/// The larger of `x` and 1.
pub open spec fn at_least_one(x: u32) -> u32 {
    if x == 0 { 1 } else { x }
}

/// The configuration after a window size is applied: a size with a zero
/// side is ignored, any other replaces the configured size.
pub open spec fn resized(c: SurfaceConfig, width: u32, height: u32) -> SurfaceConfig {
    if width > 0 && height > 0 {
        SurfaceConfig { width, height, ..c }
    } else {
        c
    }
}

/// The configuration after a sequence of window sizes, applied in order.
pub open spec fn config_after(c: SurfaceConfig, sizes: Seq<(u32, u32)>) -> SurfaceConfig
    decreases sizes.len(),
{
    if sizes.len() == 0 {
        c
    } else {
        resized(config_after(c, sizes.drop_last()), sizes.last().0, sizes.last().1)
    }
}

/// The renderer's surface state: the configuration the swapchain was last
/// configured with.
pub struct Renderer {
    config: SurfaceConfig,
}

impl Renderer {
    pub closed spec fn spec_config(&self) -> SurfaceConfig {
        self.config
    }

    /// Starts with the given configuration.
    pub fn new(config: SurfaceConfig) -> (r: Self)
        ensures
            r.spec_config() == config,
    {
        Renderer { config }
    }

    /// The current configuration.
    pub fn config(&self) -> (r: &SurfaceConfig)
        ensures
            *r == self.spec_config(),
    {
        &self.config
    }

    /// Applies a new window size. A size with a zero side (a minimised
    /// window) is ignored; otherwise the configuration takes the new size.
    /// Returns whether the surface must be configured again (and the depth
    /// texture recreated).
    pub fn resize(&mut self, width: u32, height: u32) -> (reconfigure: bool)
        ensures
            reconfigure == (width > 0 && height > 0),
            final(self).spec_config() == resized(old(self).spec_config(), width, height),
            reconfigure ==> final(self).spec_config() == (SurfaceConfig {
                width,
                height,
                ..old(self).spec_config()
            }),
            !reconfigure ==> final(self).spec_config() == old(self).spec_config(),
    {
        if width > 0 && height > 0 {
            self.config.width = width;
            self.config.height = height;
            true
        } else {
            false
        }
    }

    /// The surface's size in physical pixels, as `(width, height)`.
    pub fn size(&self) -> (r: (u32, u32))
        ensures
            r == (self.spec_config().width, self.spec_config().height),
    {
        (self.config.width, self.config.height)
    }

    /// The format the frame's colour view is created with, and every
    /// pipeline's colour target: the sRGB twin of the surface's format.
    pub fn color_format(&self) -> (r: wgpu::TextureFormat)
        ensures
            r == srgb_format(self.spec_config().format),
    {
        add_srgb_suffix(self.config.format)
    }

    /// The size of the depth texture: the surface's size, each side at least
    /// one pixel (a texture cannot be empty).
    pub fn depth_extent(&self) -> (r: (u32, u32))
        ensures
            r == (at_least_one(self.spec_config().width), at_least_one(self.spec_config().height)),
    {
        let w = if self.config.width == 0 { 1 } else { self.config.width };
        let h = if self.config.height == 0 { 1 } else { self.config.height };
        (w, h)
    }
}

/// The size after a sequence of window sizes, applied in order to a surface
/// of size `initial`.
pub open spec fn size_after(initial: (u32, u32), sizes: Seq<(u32, u32)>) -> (u32, u32)
    decreases sizes.len(),
{
    if sizes.len() == 0 {
        initial
    } else {
        let prev = size_after(initial, sizes.drop_last());
        let (w, h) = sizes.last();
        if w > 0 && h > 0 { (w, h) } else { prev }
    }
}

/// Whether the sequence holds a size with no zero side.
pub open spec fn has_nonzero(sizes: Seq<(u32, u32)>) -> bool {
    exists|i: int| 0 <= i < sizes.len() && sizes[i].0 > 0 && sizes[i].1 > 0
}

/// After any sequence of resizes, the surface has the last size with no zero
/// side, or its initial size when there is none; so a surface that starts
/// with no zero side never gets one, and resizing twice to one size is the
/// same as resizing once.
pub proof fn lemma_resize_sequence(initial: (u32, u32), sizes: Seq<(u32, u32)>)
    ensures
        !has_nonzero(sizes) ==> size_after(initial, sizes) == initial,
        has_nonzero(sizes) ==> ({
            let r = size_after(initial, sizes);
            exists|i: int|
                0 <= i < sizes.len() && sizes[i] == r && r.0 > 0 && r.1 > 0 && forall|j: int|
                    i < j < sizes.len() ==> !(sizes[j].0 > 0 && sizes[j].1 > 0)
        }),
        initial.0 > 0 && initial.1 > 0 ==> size_after(initial, sizes).0 > 0 && size_after(initial, sizes).1 > 0,
        sizes.len() > 0 ==> size_after(initial, sizes.push(sizes.last())) == size_after(initial, sizes),
    decreases sizes.len(),
{
    if sizes.len() > 0 {
        let prefix = sizes.drop_last();
        lemma_resize_sequence(initial, prefix);
        assert(sizes.push(sizes.last()).drop_last() =~= sizes);
        let last = sizes.last();
        if last.0 > 0 && last.1 > 0 {
            assert(sizes[sizes.len() - 1] == last);
        } else {
            if has_nonzero(sizes) {
                let k = choose|k: int| 0 <= k < sizes.len() && sizes[k].0 > 0 && sizes[k].1 > 0;
                assert(k < sizes.len() - 1);
                assert(prefix[k] == sizes[k]);
                assert(has_nonzero(prefix));
                let r = size_after(initial, prefix);
                let i = choose|i: int|
                    0 <= i < prefix.len() && prefix[i] == r && r.0 > 0 && r.1 > 0 && forall|j: int|
                        i < j < prefix.len() ==> !(prefix[j].0 > 0 && prefix[j].1 > 0);
                assert(sizes[i] == r);
                assert forall|j: int| i < j < sizes.len() implies !(sizes[j].0 > 0 && sizes[j].1 > 0) by {
                    if j < sizes.len() - 1 {
                        assert(prefix[j] == sizes[j]);
                    }
                }
            } else {
                assert forall|k: int| 0 <= k < prefix.len() implies !(prefix[k].0 > 0 && prefix[k].1 > 0) by {
                    assert(sizes[k] == prefix[k]);
                }
            }
        }
    }
}

/// A run of resize calls on a renderer is one [`resized`] step per call, so
/// its configuration ends as [`config_after`] says: the size is the one
/// [`size_after`] gives, every other setting is unchanged, and the depth
/// texture takes that size.
pub proof fn lemma_config_after_resizes(c: SurfaceConfig, sizes: Seq<(u32, u32)>)
    ensures
        (config_after(c, sizes).width, config_after(c, sizes).height) == size_after((c.width, c.height), sizes),
        config_after(c, sizes) == (SurfaceConfig {
            width: config_after(c, sizes).width,
            height: config_after(c, sizes).height,
            ..c
        }),
        c.width > 0 && c.height > 0 ==> at_least_one(config_after(c, sizes).width) == config_after(c, sizes).width
            && at_least_one(config_after(c, sizes).height) == config_after(c, sizes).height,
    decreases sizes.len(),
{
    if sizes.len() > 0 {
        lemma_config_after_resizes(c, sizes.drop_last());
    }
    lemma_resize_sequence((c.width, c.height), sizes);
}

} // verus!
