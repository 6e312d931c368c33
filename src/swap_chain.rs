//! Swap chain negotiation: format, present mode, extent and image count.
use vstd::prelude::*;

verus! {

/// `VK_FORMAT_B8G8R8A8_SRGB`.
pub const FORMAT_B8G8R8A8_SRGB: i32 = 50;

/// `VK_COLOR_SPACE_SRGB_NONLINEAR_KHR`.
pub const COLOR_SPACE_SRGB_NONLINEAR: i32 = 0;

/// `VK_PRESENT_MODE_IMMEDIATE_KHR`.
pub const PRESENT_MODE_IMMEDIATE: i32 = 0;

/// `VK_PRESENT_MODE_MAILBOX_KHR`.
pub const PRESENT_MODE_MAILBOX: i32 = 1;

/// `VK_PRESENT_MODE_FIFO_KHR`, the mode every surface supports.
pub const PRESENT_MODE_FIFO: i32 = 2;

/// A pixel format together with its color space, as raw API values.
#[derive(Clone, Copy, Debug, PartialEq, Eq, Structural)]
pub struct SurfaceFormat {
    pub format: i32,
    pub color_space: i32,
}

/// A two-dimensional size in pixels.
#[derive(Clone, Copy, Debug, PartialEq, Eq, Structural)]
pub struct Extent2D {
    pub width: u32,
    pub height: u32,
}

/// What the surface allows for a swap chain on one accelerator.
#[derive(Clone, Copy, Debug, PartialEq, Eq, Structural)]
pub struct SurfaceCapabilities {
    pub min_image_count: u32,
    /// Zero means that the number of images has no upper bound.
    pub max_image_count: u32,
    pub min_image_extent: Extent2D,
    pub max_image_extent: Extent2D,
    /// The surface's current transform, handed through to swap chain creation.
    pub current_transform: u32,
}

/// The negotiable presentation capabilities of an accelerator and a surface.
#[derive(Debug)]
pub struct SwapChainSupport {
    pub capabilities: SurfaceCapabilities,
    pub formats: Vec<SurfaceFormat>,
    pub present_modes: Vec<i32>,
}

/// The concrete choices for a swap chain.
#[derive(Clone, Copy, Debug, PartialEq, Eq, Structural)]
pub struct SwapChainSettings {
    pub format: SurfaceFormat,
    pub present_mode: i32,
    pub extent: Extent2D,
    pub image_count: u32,
    pub transform: u32,
}

pub open spec fn preferred_format() -> SurfaceFormat {
    SurfaceFormat { format: FORMAT_B8G8R8A8_SRGB, color_space: COLOR_SPACE_SRGB_NONLINEAR }
}

/// The preferred format if the list holds it, else the list's first entry.
pub open spec fn chosen_format(formats: Seq<SurfaceFormat>) -> SurfaceFormat
    recommends
        formats.len() > 0,
{
    if formats.contains(preferred_format()) {
        preferred_format()
    } else {
        formats[0]
    }
}

/// Mailbox if it is offered, else FIFO.
pub open spec fn chosen_present_mode(modes: Seq<i32>) -> i32 {
    if modes.contains(PRESENT_MODE_MAILBOX) {
        PRESENT_MODE_MAILBOX
    } else {
        PRESENT_MODE_FIFO
    }
}

pub open spec fn clamp(v: u32, lo: u32, hi: u32) -> u32 {
    if v < lo {
        lo
    } else if v > hi {
        hi
    } else {
        v
    }
}

/// The requested extent clamped component-wise into the surface's bounds.
pub open spec fn chosen_extent(caps: SurfaceCapabilities, requested: Extent2D) -> Extent2D {
    Extent2D {
        width: clamp(requested.width, caps.min_image_extent.width, caps.max_image_extent.width),
        height: clamp(requested.height, caps.min_image_extent.height, caps.max_image_extent.height),
    }
}

/// One image more than the minimum (as far as `u32` reaches), lowered to the
/// maximum where there is one.
pub open spec fn chosen_image_count(caps: SurfaceCapabilities) -> u32 {
    let wanted: int = if caps.min_image_count < u32::MAX {
        caps.min_image_count + 1
    } else {
        caps.min_image_count as int
    };
    if caps.max_image_count != 0 && wanted > caps.max_image_count {
        caps.max_image_count
    } else {
        wanted as u32
    }
}

pub open spec fn chosen_settings(support: SwapChainSupport, requested: Extent2D) -> SwapChainSettings
    recommends
        support.formats@.len() > 0,
{
    SwapChainSettings {
        format: chosen_format(support.formats@),
        present_mode: chosen_present_mode(support.present_modes@),
        extent: chosen_extent(support.capabilities, requested),
        image_count: chosen_image_count(support.capabilities),
        transform: support.capabilities.current_transform,
    }
}

/// Picks the preferred format if the list holds it, else the first one.
pub fn choose_swap_surface_format(formats: &Vec<SurfaceFormat>) -> (r: SurfaceFormat)
    requires
        formats@.len() > 0,
    ensures
        r == chosen_format(formats@),
{
    let preferred = SurfaceFormat {
        format: FORMAT_B8G8R8A8_SRGB,
        color_space: COLOR_SPACE_SRGB_NONLINEAR,
    };
    let mut i: usize = 0;
    while i < formats.len()
        invariant
            0 <= i <= formats@.len(),
            preferred == preferred_format(),
            forall|j: int| 0 <= j < i ==> formats@[j] != preferred,
        decreases formats@.len() - i,
    {
        let f = formats[i];
        if f.format == preferred.format && f.color_space == preferred.color_space {
            assert(formats@[i as int] == preferred);
            return preferred;
        }
        i = i + 1;
    }
    assert(!formats@.contains(preferred_format()));
    formats[0]
}

/// Picks mailbox where the surface offers it, else FIFO.
pub fn choose_swap_present_mode(modes: &Vec<i32>) -> (r: i32)
    ensures
        r == chosen_present_mode(modes@),
{
    let mut i: usize = 0;
    while i < modes.len()
        invariant
            0 <= i <= modes@.len(),
            forall|j: int| 0 <= j < i ==> modes@[j] != PRESENT_MODE_MAILBOX,
        decreases modes@.len() - i,
    {
        if modes[i] == PRESENT_MODE_MAILBOX {
            assert(modes@[i as int] == PRESENT_MODE_MAILBOX);
            return PRESENT_MODE_MAILBOX;
        }
        i = i + 1;
    }
    assert(!modes@.contains(PRESENT_MODE_MAILBOX));
    PRESENT_MODE_FIFO
}

fn clamp_u32(v: u32, lo: u32, hi: u32) -> (r: u32)
    ensures
        r == clamp(v, lo, hi),
{
    if v < lo {
        lo
    } else if v > hi {
        hi
    } else {
        v
    }
}

/// Clamps the requested extent into the bounds that the surface allows.
pub fn choose_swap_extent(caps: &SurfaceCapabilities, requested: Extent2D) -> (r: Extent2D)
    ensures
        r == chosen_extent(*caps, requested),
{
    Extent2D {
        width: clamp_u32(requested.width, caps.min_image_extent.width, caps.max_image_extent.width),
        height: clamp_u32(
            requested.height,
            caps.min_image_extent.height,
            caps.max_image_extent.height,
        ),
    }
}

/// The number of swap chain images to ask for.
pub fn choose_image_count(caps: &SurfaceCapabilities) -> (r: u32)
    ensures
        r == chosen_image_count(*caps),
{
    let wanted: u32 = if caps.min_image_count < u32::MAX {
        caps.min_image_count + 1
    } else {
        caps.min_image_count
    };
    if caps.max_image_count != 0 && wanted > caps.max_image_count {
        caps.max_image_count
    } else {
        wanted
    }
}

/// Negotiates every setting of the swap chain for a requested extent.
pub fn choose_swap_chain_settings(support: &SwapChainSupport, requested: Extent2D) -> (r:
    SwapChainSettings)
    requires
        support.formats@.len() > 0,
    ensures
        r == chosen_settings(*support, requested),
{
    SwapChainSettings {
        format: choose_swap_surface_format(&support.formats),
        present_mode: choose_swap_present_mode(&support.present_modes),
        extent: choose_swap_extent(&support.capabilities, requested),
        image_count: choose_image_count(&support.capabilities),
        transform: support.capabilities.current_transform,
    }
}

/// The negotiated extent lies within the surface's bounds in each component:
/// a request beyond the maximum gets the maximum, one below the minimum gets
/// the minimum, and one within the bounds is kept.
pub proof fn lemma_extent_within_bounds(caps: SurfaceCapabilities, requested: Extent2D)
    requires
        caps.min_image_extent.width <= caps.max_image_extent.width,
        caps.min_image_extent.height <= caps.max_image_extent.height,
    ensures
        caps.min_image_extent.width <= chosen_extent(caps, requested).width
            <= caps.max_image_extent.width,
        caps.min_image_extent.height <= chosen_extent(caps, requested).height
            <= caps.max_image_extent.height,
        requested.width > caps.max_image_extent.width ==> chosen_extent(caps, requested).width
            == caps.max_image_extent.width,
        requested.height > caps.max_image_extent.height ==> chosen_extent(caps, requested).height
            == caps.max_image_extent.height,
        requested.width < caps.min_image_extent.width ==> chosen_extent(caps, requested).width
            == caps.min_image_extent.width,
        requested.height < caps.min_image_extent.height ==> chosen_extent(caps, requested).height
            == caps.min_image_extent.height,
        caps.min_image_extent.width <= requested.width <= caps.max_image_extent.width
            ==> chosen_extent(caps, requested).width == requested.width,
        caps.min_image_extent.height <= requested.height <= caps.max_image_extent.height
            ==> chosen_extent(caps, requested).height == requested.height,
{
}

/// One image more than the minimum is asked for, unless a nonzero maximum is
/// lower, in which case the maximum is asked for.
pub proof fn lemma_image_count(caps: SurfaceCapabilities)
    requires
        caps.min_image_count < u32::MAX,
    ensures
        caps.max_image_count == 0 ==> chosen_image_count(caps) == caps.min_image_count + 1,
        caps.max_image_count > caps.min_image_count ==> chosen_image_count(caps)
            == caps.min_image_count + 1,
        0 < caps.max_image_count <= caps.min_image_count ==> chosen_image_count(caps)
            == caps.max_image_count,
{
}

/// The preferred format is chosen wherever the list holds it, at any
/// position; otherwise the list's first entry is.
pub proof fn lemma_format_choice(formats: Seq<SurfaceFormat>, i: int)
    requires
        0 <= i < formats.len(),
    ensures
        formats[i] == preferred_format() ==> chosen_format(formats) == preferred_format(),
        !formats.contains(preferred_format()) ==> chosen_format(formats) == formats[0],
{
    if formats[i] == preferred_format() {
        assert(formats.contains(preferred_format()));
    }
}

} // verus!
