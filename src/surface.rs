use vstd::prelude::*;
use wgpu_types::TextureFormat;
use crate::gpu_types::{add_srgb_suffix, srgb_form};

verus! {

/// How presented frames are paced against the display.
#[derive(Clone, Copy, Debug, PartialEq, Eq, Structural)]
pub enum PresentMode {
    AutoVsync,
    AutoNoVsync,
    Fifo,
    FifoRelaxed,
    Immediate,
    Mailbox,
}

/// How the surface's alpha channel is composited with the desktop.
#[derive(Clone, Copy, Debug, PartialEq, Eq, Structural)]
pub enum AlphaMode {
    Auto,
    Opaque,
    PreMultiplied,
    PostMultiplied,
    Inherit,
}

/// The frames that may be queued ahead of the display.
pub const FRAME_LATENCY: u32 = 2;

/// The parameters that bind rendering output to a presentation surface.
/// The surface's texels are used as render attachments.
pub struct SurfaceConfig {
    pub format: TextureFormat,
    pub view_formats: Vec<TextureFormat>,
    pub width: u32,
    pub height: u32,
    pub present_mode: PresentMode,
    pub alpha_mode: AlphaMode,
    pub desired_maximum_frame_latency: u32,
}

impl SurfaceConfig {
    /// The configuration for a surface of the given format and size: the
    /// size as given, the format's sRGB form as its one view format, paced
    /// by vsync, alpha chosen by the platform, at most two frames in flight.
    pub open spec fn is_config_for(&self, format: TextureFormat, width: u32, height: u32) -> bool {
        &&& self.format == format
        &&& self.view_formats@ == seq![srgb_form(format)]
        &&& self.width == width
        &&& self.height == height
        &&& self.present_mode == PresentMode::AutoVsync
        &&& self.alpha_mode == AlphaMode::Auto
        &&& self.desired_maximum_frame_latency == FRAME_LATENCY
    }
}

/// Builds the surface configuration for a format and a size.
pub fn build_surface_config(surface_format: &TextureFormat, width: u32, height: u32) -> (r:
    SurfaceConfig)
    ensures
        r.is_config_for(*surface_format, width, height),
{
    let srgb = add_srgb_suffix(surface_format);
    let view_formats = vec![srgb];
    assert(view_formats@ =~= seq![srgb_form(*surface_format)]);
    SurfaceConfig {
        format: *surface_format,
        view_formats,
        width,
        height,
        present_mode: PresentMode::AutoVsync,
        alpha_mode: AlphaMode::Auto,
        desired_maximum_frame_latency: FRAME_LATENCY,
    }
}

/// Picks the surface format: the first one the surface reports, if any.
pub fn select_surface_format(formats: &Vec<TextureFormat>) -> (r: Option<TextureFormat>)
    ensures
        formats@.len() == 0 <==> r is None,
        formats@.len() > 0 ==> r == Some(formats@[0]),
{
    if formats.len() == 0 {
        None
    } else {
        Some(formats[0])
    }
}

/// What the harness knows of its presentation surface: the window size it
/// was last told of and the format chosen for it once and for all.
pub struct SurfaceState {
    pub width: u32,
    pub height: u32,
    pub surface_format: TextureFormat,
}

impl SurfaceState {
    /// The state after a resize to `width` by `height`.
    pub open spec fn resized(self, width: u32, height: u32) -> SurfaceState {
        SurfaceState { width, height, surface_format: self.surface_format }
    }

    /// The state for a window of the given size on a surface that reports
    /// `formats`; `None` when it reports none.
    pub fn new(width: u32, height: u32, formats: &Vec<TextureFormat>) -> (r: Option<SurfaceState>)
        ensures
            formats@.len() == 0 <==> r is None,
            r matches Some(s) ==> s.width == width && s.height == height && s.surface_format
                == formats@[0],
    {
        match select_surface_format(formats) {
            Some(surface_format) => Some(SurfaceState { width, height, surface_format }),
            None => None,
        }
    }

    /// The configuration to apply to the surface for the current size.
    pub fn configure_surface(&self) -> (r: SurfaceConfig)
        ensures
            r.is_config_for(self.surface_format, self.width, self.height),
    {
        build_surface_config(&self.surface_format, self.width, self.height)
    }

    /// Records a new window size and gives the configuration that both the
    /// surface and the renderer are to receive for it.
    pub fn resize(&mut self, width: u32, height: u32) -> (r: SurfaceConfig)
        ensures
            *final(self) == old(self).resized(width, height),
            r.is_config_for(old(self).surface_format, width, height),
    {
        self.width = width;
        self.height = height;
        self.configure_surface()
    }

    /// The format of the per-frame render target: the sRGB form of the
    /// surface format, so that output is gamma correct.
    pub fn target_format(&self) -> (r: TextureFormat)
        ensures
            r == srgb_form(self.surface_format),
    {
        add_srgb_suffix(&self.surface_format)
    }
}

/// After any run of resizes, the configuration built for the surface has
/// exactly the size of the last one, whatever the sizes before it.
pub proof fn lemma_config_follows_last_resize(
    s: SurfaceState,
    sizes: Seq<(u32, u32)>,
    c: SurfaceConfig,
)
    requires
        sizes.len() > 0,
        c.is_config_for(resize_all(s, sizes).surface_format, resize_all(s, sizes).width,
            resize_all(s, sizes).height),
    ensures
        c.width == sizes.last().0,
        c.height == sizes.last().1,
        c.format == s.surface_format,
{
    lemma_resize_all_keeps_format(s, sizes);
}

/// The state after the resizes of `sizes`, in order.
pub open spec fn resize_all(s: SurfaceState, sizes: Seq<(u32, u32)>) -> SurfaceState
    decreases sizes.len(),
{
    if sizes.len() == 0 {
        s
    } else {
        resize_all(s, sizes.drop_last()).resized(sizes.last().0, sizes.last().1)
    }
}

/// Resizing never changes the surface format.
pub proof fn lemma_resize_all_keeps_format(s: SurfaceState, sizes: Seq<(u32, u32)>)
    ensures
        resize_all(s, sizes).surface_format == s.surface_format,
    decreases sizes.len(),
{
    if sizes.len() > 0 {
        lemma_resize_all_keeps_format(s, sizes.drop_last());
    }
}

} // verus!
