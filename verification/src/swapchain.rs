//! Surface capabilities and the swapchain construction policy: take the
//! surface's minimum image count, the first supported alpha compositing
//! mode and the first supported pixel format, one image layer, and
//! always request FIFO (vsync-equivalent) presentation with clipping
//! enabled.

use vstd::prelude::*;

verus! {

/// A presentation mode of the graphics API. The bootstrap policy only
/// ever requests [`PresentMode::Fifo`]; the other variants exist so the
/// policy can be stated against the full choice the API offers.
#[derive(Clone, Copy, PartialEq, Eq, Structural, Debug)]
pub enum PresentMode {
    /// Present in submission order, blocking on vertical sync: no
    /// tearing, bounded latency.
    Fifo,
    /// Present immediately, tearing allowed.
    Immediate,
    /// Replace the queued image, uncapped frame rate without tearing.
    Mailbox,
    /// FIFO that stops waiting once a vertical sync was missed.
    Relaxed,
}

/// What a surface reports about itself for a given physical device.
/// Alpha modes and pixel formats are opaque tokens of the graphics API,
/// carried as plain codes; the policy only ever picks the first entry
/// of each list.
#[derive(Debug)]
pub struct SurfaceCaps {
    /// The smallest number of swapchain images the surface supports.
    pub min_image_count: u32,
    /// Supported alpha compositing modes, in the order the API reports
    /// them.
    pub supported_alpha: Vec<u32>,
    /// Supported pixel formats, in the order the API reports them.
    pub supported_formats: Vec<u32>,
}

/// The parameters a swapchain is requested with.
#[derive(Clone, Copy, PartialEq, Eq, Structural, Debug)]
pub struct SwapchainConfig {
    pub image_count: u32,
    pub format: u32,
    pub alpha: u32,
    pub width: u32,
    pub height: u32,
    pub layers: u32,
    pub present_mode: PresentMode,
    pub clipped: bool,
}

/// The capability lists are non-empty, so "pick the first entry" is
/// defined for both.
pub open spec fn caps_complete(c: SurfaceCaps) -> bool {
    c.supported_alpha@.len() > 0 && c.supported_formats@.len() > 0
}

/// The configuration the policy derives from capabilities `c` and a
/// drawable area of `width` by `height` pixels.
pub open spec fn spec_plan_swapchain(c: SurfaceCaps, width: u32, height: u32) -> SwapchainConfig {
    SwapchainConfig {
        image_count: c.min_image_count,
        format: c.supported_formats@[0],
        alpha: c.supported_alpha@[0],
        width: width,
        height: height,
        layers: 1,
        present_mode: PresentMode::Fifo,
        clipped: true,
    }
}

/// Derive the swapchain request from what the surface reports: minimum
/// image count, first supported format, first supported alpha mode, one
/// layer, FIFO presentation, clipping enabled.
pub fn plan_swapchain(caps: &SurfaceCaps, width: u32, height: u32) -> (cfg: SwapchainConfig)
    requires
        caps_complete(*caps),
    ensures
        cfg == spec_plan_swapchain(*caps, width, height),
        cfg.present_mode is Fifo,
        cfg.clipped,
{
    SwapchainConfig {
        image_count: caps.min_image_count,
        format: caps.supported_formats[0],
        alpha: caps.supported_alpha[0],
        width: width,
        height: height,
        layers: 1,
        present_mode: PresentMode::Fifo,
        clipped: true,
    }
}

} // verus!
