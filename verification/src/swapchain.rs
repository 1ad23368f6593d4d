//! The swapchain lifecycle.
//!
//! A swapchain is the chain of presentable images negotiated with the
//! display surface. It exists only while the window has a nonzero area,
//! must match the window's physical size, and is replaced rather than
//! mutated when the window resizes. The resources that hang off it — the
//! render pass, which is tied to the image format alone, and one
//! framebuffer per image — are rebuilt only as far as the new swapchain
//! invalidates them.

use vstd::prelude::*;

verus! {

/// One supported surface format: a pixel format identifier paired with
/// whether its color space is sRGB nonlinear.
#[derive(Debug, Clone, Copy, PartialEq, Eq, Structural)]
pub struct SurfaceFormat {
    pub format: u32,
    pub srgb_nonlinear: bool,
}

/// The present modes the renderer is willing to use.
#[derive(Debug, Clone, Copy, PartialEq, Eq, Structural)]
pub enum PresentMode {
    /// Low-latency triple buffering; used whenever the surface offers it.
    Mailbox,
    /// Plain vsync; always available.
    Fifo,
}

/// Picks the present mode for a new swapchain: mailbox when the surface's
/// present modes could be queried and include it, else fifo.
pub fn choose_present_mode(modes_known: bool, mailbox_supported: bool) -> (m: PresentMode)
    ensures
        m is Mailbox <==> modes_known && mailbox_supported,
{
    if modes_known && mailbox_supported {
        PresentMode::Mailbox
    } else {
        PresentMode::Fifo
    }
}

/// The surface supports this pixel format with an sRGB nonlinear color
/// space.
pub open spec fn supports_format(s: Seq<SurfaceFormat>, f: u32) -> bool {
    exists|i: int| 0 <= i < s.len() && s[i].format == f && s[i].srgb_nonlinear
}

/// Some supported format has an sRGB nonlinear color space.
pub open spec fn has_srgb_format(s: Seq<SurfaceFormat>) -> bool {
    exists|i: int| 0 <= i < s.len() && s[i].srgb_nonlinear
}

/// `k` is the first index whose color space is sRGB nonlinear.
pub open spec fn first_srgb_format(s: Seq<SurfaceFormat>, k: int) -> bool {
    &&& 0 <= k < s.len()
    &&& s[k].srgb_nonlinear
    &&& forall|j: int| 0 <= j < k ==> !s[j].srgb_nonlinear
}

/// Picks the format for a fresh swapchain: the first supported format
/// whose color space is sRGB nonlinear, if the surface offers any.
pub fn choose_surface_format(formats: &Vec<SurfaceFormat>) -> (r: Option<usize>)
    ensures
        r is Some <==> has_srgb_format(formats@),
        r matches Some(k) ==> first_srgb_format(formats@, k as int),
{
    let n = formats.len();
    let mut i: usize = 0;
    while i < n
        invariant
            n == formats@.len(),
            i <= n,
            forall|j: int| 0 <= j < i ==> !formats@[j].srgb_nonlinear,
        decreases n - i,
    {
        if formats[i].srgb_nonlinear {
            return Some(i);
        }
        i += 1;
    }
    None
}

/// Picks the format for a recreated swapchain: the old format is kept
/// whenever the surface still supports it, and only otherwise does the
/// fresh first-sRGB choice apply.
pub fn select_recreate_format(old_format: u32, formats: &Vec<SurfaceFormat>) -> (r: Option<u32>)
    ensures
        supports_format(formats@, old_format) ==> r == Some(old_format),
        !supports_format(formats@, old_format) ==> (r is Some <==> has_srgb_format(formats@)),
        r matches Some(f) ==> !supports_format(formats@, old_format) ==> exists|k: int|
            first_srgb_format(formats@, k) && formats@[k].format == f,
{
    let n = formats.len();
    let mut i: usize = 0;
    while i < n
        invariant
            n == formats@.len(),
            i <= n,
            forall|j: int|
                0 <= j < i ==> !(formats@[j].format == old_format && formats@[j].srgb_nonlinear),
        decreases n - i,
    {
        if formats[i].format == old_format && formats[i].srgb_nonlinear {
            return Some(old_format);
        }
        i += 1;
    }
    match choose_surface_format(formats) {
        Some(k) => Some(formats[k].format),
        None => None,
    }
}

/// How a presented image is scaled when the surface and swapchain sizes
/// race apart; only available with the swapchain-maintenance extension.
#[derive(Debug, Clone, Copy, PartialEq, Eq, Structural)]
pub enum PresentScaling {
    AspectRatioStretch,
}

/// Picks the scaling behavior of a fresh swapchain: stretch preserving
/// aspect ratio when the device enabled the swapchain-maintenance
/// extension, else none.
pub fn choose_scaling_behavior(swapchain_maintenance1_enabled: bool) -> (s: Option<PresentScaling>)
    ensures
        s is Some <==> swapchain_maintenance1_enabled,
        s matches Some(b) ==> b is AspectRatioStretch,
{
    if swapchain_maintenance1_enabled {
        Some(PresentScaling::AspectRatioStretch)
    } else {
        None
    }
}

/// Geometry and format of a live swapchain.
#[derive(Debug, Clone, Copy, PartialEq, Eq, Structural)]
pub struct SwapchainParams {
    pub format: u32,
    pub width: u32,
    pub height: u32,
    pub image_count: usize,
}

/// Whether a swapchain currently exists. It is absent exactly while the
/// window has zero area.
#[derive(Debug, Clone, Copy, PartialEq, Eq, Structural)]
pub enum SwapchainState {
    Absent,
    Active(SwapchainParams),
}

impl SwapchainState {
    /// A live swapchain whose extent no longer matches the window must be
    /// replaced before the next frame can present.
    pub open spec fn is_stale(&self, win_width: u32, win_height: u32) -> bool {
        match *self {
            SwapchainState::Absent => false,
            SwapchainState::Active(p) => p.width != win_width || p.height != win_height,
        }
    }
}

/// What the driver must be asked to do about the swapchain after the
/// window reaches a new size.
#[derive(Debug, Clone, Copy, PartialEq, Eq, Structural)]
pub enum SwapchainPlan {
    /// The window area is zero: tear the swapchain down.
    Destroy,
    /// No swapchain exists yet: create one from scratch, choosing a format
    /// and a present mode.
    CreateFresh { width: u32, height: u32 },
    /// Recreate in place, reusing the old swapchain as the parent and
    /// keeping its format while the surface still supports it.
    Recreate { width: u32, height: u32, old_format: u32 },
}

/// Decides the swapchain's fate for a window of the given physical size.
pub fn plan_swapchain_change(state: &SwapchainState, width: u32, height: u32) -> (p: SwapchainPlan)
    ensures
        (p is Destroy <==> width == 0 || height == 0),
        state is Absent && width > 0 && height > 0 ==> p == (SwapchainPlan::CreateFresh {
            width,
            height,
        }),
        state matches SwapchainState::Active(q) ==> width > 0 && height > 0 ==> p
            == (SwapchainPlan::Recreate { width, height, old_format: q.format }),
{
    if width == 0 || height == 0 {
        SwapchainPlan::Destroy
    } else {
        match state {
            SwapchainState::Absent => SwapchainPlan::CreateFresh { width, height },
            SwapchainState::Active(q) => SwapchainPlan::Recreate {
                width,
                height,
                old_format: q.format,
            },
        }
    }
}

/// The resources that depend on the swapchain. The render pass depends on
/// the image format alone; its generation counts how often it was actually
/// rebuilt, making reuse visible in contracts. One framebuffer exists per
/// swapchain image.
#[derive(Debug, Clone, Copy, PartialEq, Eq, Structural)]
pub struct RenderTargets {
    pub swapchain: SwapchainParams,
    pub render_pass_format: u32,
    pub render_pass_generation: u64,
    pub framebuffer_count: usize,
}

impl RenderTargets {
    /// The render pass matches the swapchain's format and the framebuffers
    /// cover its images one to one.
    pub open spec fn wf(&self) -> bool {
        &&& self.render_pass_format == self.swapchain.format
        &&& self.framebuffer_count == self.swapchain.image_count
    }

    /// Builds the dependent resources for a brand-new swapchain.
    pub fn create(params: SwapchainParams) -> (t: RenderTargets)
        ensures
            t.wf(),
            t.swapchain == params,
            t.render_pass_generation == 0,
    {
        RenderTargets {
            swapchain: params,
            render_pass_format: params.format,
            render_pass_generation: 0,
            framebuffer_count: params.image_count,
        }
    }

    /// Adopts a recreated swapchain: the framebuffers follow the new
    /// images, while the render pass is rebuilt only when the image format
    /// changed and is reused otherwise.
    pub fn adopt(self, params: SwapchainParams) -> (t: RenderTargets)
        requires
            self.wf(),
            self.render_pass_generation < u64::MAX,
        ensures
            t.wf(),
            t.swapchain == params,
            params.format == self.swapchain.format ==> t.render_pass_generation
                == self.render_pass_generation,
            params.format != self.swapchain.format ==> t.render_pass_generation
                == self.render_pass_generation + 1,
    {
        let generation: u64 = if params.format != self.swapchain.format {
            self.render_pass_generation + 1
        } else {
            self.render_pass_generation
        };
        RenderTargets {
            swapchain: params,
            render_pass_format: params.format,
            render_pass_generation: generation,
            framebuffer_count: params.image_count,
        }
    }
}

} // verus!
