//! Setup decisions: presentation format, queue family, memory type,
//! swapchain parameters.
//!
//! The graphics API bootstrap itself (instance, device, surface, swapchain
//! objects) is an external collaborator; the unverified shell queries it for
//! plain values — the formats a surface offers, each queue family's flags,
//! each memory type's property bits — and the functions here make every
//! decision over those values.  Each setup failure is fatal: the shell
//! aborts with a diagnostic before creating anything further.

use crate::error::RenderError;
use vstd::prelude::*;

verus! {

/// Code of the 8-bit BGRA unsigned-normalized pixel format, as the
/// graphics API numbers its formats.
pub const FORMAT_B8G8R8A8_UNORM: i32 = 44;

/// Code of the non-linear sRGB color space, as the graphics API numbers
/// its color spaces.
pub const COLOR_SPACE_SRGB_NONLINEAR: i32 = 0;

/// Bit of a queue family's flag word that marks graphics support.
pub const QUEUE_GRAPHICS_BIT: u32 = 1;

/// One presentation format a surface offers: pixel format and color space,
/// by their API codes.
#[derive(Clone, Copy, Debug, PartialEq, Eq, Structural)]
pub struct SurfaceFormat {
    pub format: i32,
    pub color_space: i32,
}

/// The one presentation format the pipeline renders to: 8-bit BGRA in
/// non-linear sRGB.
pub open spec fn is_wanted_format(f: SurfaceFormat) -> bool {
    f.format == FORMAT_B8G8R8A8_UNORM && f.color_space == COLOR_SPACE_SRGB_NONLINEAR
}

/// What the surface reports about itself, as plain values.
#[derive(Clone, Copy, Debug, PartialEq, Eq, Structural)]
pub struct SurfaceCaps {
    pub min_image_count: u32,
    pub min_extent_w: u32,
    pub min_extent_h: u32,
}

/// Everything the shell needs to create the swapchain.
#[derive(Clone, Copy, Debug, PartialEq, Eq, Structural)]
pub struct SwapchainPlan {
    pub format: SurfaceFormat,
    pub extent_w: u32,
    pub extent_h: u32,
    pub image_count: u32,
}

/// `v` clamped to the closed range `[lo, hi]`.
pub open spec fn spec_clamp_u32(v: u32, lo: u32, hi: u32) -> u32 {
    if v < lo {
        lo
    } else if v > hi {
        hi
    } else {
        v
    }
}

/// Picks the first offered format that the pipeline renders to, or reports
/// that the surface supports none.
pub fn select_surface_format(formats: &Vec<SurfaceFormat>) -> (r: Result<
    SurfaceFormat,
    RenderError,
>)
    ensures
        match r {
            Ok(f) => exists|i: int|
                {
                    &&& 0 <= i < formats@.len()
                    &&& is_wanted_format(#[trigger] formats@[i])
                    &&& f == formats@[i]
                    &&& forall|j: int| 0 <= j < i ==> !is_wanted_format(#[trigger] formats@[j])
                },
            Err(e) => {
                &&& e == RenderError::UnsupportedPresentationFormat
                &&& forall|j: int|
                    0 <= j < formats@.len() ==> !is_wanted_format(#[trigger] formats@[j])
            },
        },
{
    let mut i: usize = 0;
    while i < formats.len()
        invariant
            0 <= i <= formats@.len(),
            forall|j: int| 0 <= j < i ==> !is_wanted_format(#[trigger] formats@[j]),
        decreases formats@.len() - i,
    {
        let f = formats[i];
        if f.format == FORMAT_B8G8R8A8_UNORM && f.color_space == COLOR_SPACE_SRGB_NONLINEAR {
            return Ok(f);
        }
        i = i + 1;
    }
    Err(RenderError::UnsupportedPresentationFormat)
}

/// Decides every swapchain parameter from what the surface offers, or
/// fails before any swapchain exists.  The shell creates a swapchain only
/// from a returned plan, so an unsupported presentation format aborts setup
/// with nothing created.  The window extent is clamped with the surface's
/// minimum extent as both bounds, so the plan's extent is that minimum.
pub fn plan_swapchain(
    formats: &Vec<SurfaceFormat>,
    caps: &SurfaceCaps,
    window_w: u32,
    window_h: u32,
) -> (r: Result<SwapchainPlan, RenderError>)
    ensures
        match r {
            Ok(p) => {
                &&& exists|i: int|
                    {
                        &&& 0 <= i < formats@.len()
                        &&& is_wanted_format(#[trigger] formats@[i])
                        &&& p.format == formats@[i]
                        &&& forall|j: int|
                            0 <= j < i ==> !is_wanted_format(#[trigger] formats@[j])
                    }
                &&& p.extent_w == spec_clamp_u32(window_w, caps.min_extent_w, caps.min_extent_w)
                &&& p.extent_h == spec_clamp_u32(window_h, caps.min_extent_h, caps.min_extent_h)
                &&& p.extent_w == caps.min_extent_w
                &&& p.extent_h == caps.min_extent_h
                &&& p.image_count == caps.min_image_count
            },
            Err(e) => {
                &&& e == RenderError::UnsupportedPresentationFormat
                &&& forall|j: int|
                    0 <= j < formats@.len() ==> !is_wanted_format(#[trigger] formats@[j])
            },
        },
{
    let format = match select_surface_format(formats) {
        Ok(f) => f,
        Err(e) => {
            return Err(e);
        },
    };
    let extent_w = clamp_u32(window_w, caps.min_extent_w, caps.min_extent_w);
    let extent_h = clamp_u32(window_h, caps.min_extent_h, caps.min_extent_h);
    Ok(SwapchainPlan { format, extent_w, extent_h, image_count: caps.min_image_count })
}

/// `v` clamped to the closed range `[lo, hi]`.
#[verifier::when_used_as_spec(spec_clamp_u32)]
pub fn clamp_u32(v: u32, lo: u32, hi: u32) -> (r: u32)
    requires
        lo <= hi,
    ensures
        r == spec_clamp_u32(v, lo, hi),
{
    if v < lo {
        lo
    } else if v > hi {
        hi
    } else {
        v
    }
}

/// One queue family of a physical device, as plain values: its flag word
/// and whether it can present to the surface.
#[derive(Clone, Copy, Debug, PartialEq, Eq, Structural)]
pub struct QueueFamily {
    pub flags: u32,
    pub can_present: bool,
}

/// A usable queue family both draws and presents.
pub open spec fn is_suitable_family(q: QueueFamily) -> bool {
    q.flags & QUEUE_GRAPHICS_BIT != 0 && q.can_present
}

/// Picks the first queue family that both draws and presents, or reports
/// that the device offers none.
pub fn pick_queue_family(families: &Vec<QueueFamily>) -> (r: Result<usize, RenderError>)
    ensures
        match r {
            Ok(i) => {
                &&& i < families@.len()
                &&& is_suitable_family(families@[i as int])
                &&& forall|j: int| 0 <= j < i ==> !is_suitable_family(#[trigger] families@[j])
            },
            Err(e) => {
                &&& e == RenderError::NoCompatibleQueueFamily
                &&& forall|j: int|
                    0 <= j < families@.len() ==> !is_suitable_family(#[trigger] families@[j])
            },
        },
{
    let mut i: usize = 0;
    while i < families.len()
        invariant
            0 <= i <= families@.len(),
            forall|j: int| 0 <= j < i ==> !is_suitable_family(#[trigger] families@[j]),
        decreases families@.len() - i,
    {
        let q = families[i];
        if q.flags & QUEUE_GRAPHICS_BIT != 0 && q.can_present {
            return Ok(i);
        }
        i = i + 1;
    }
    Err(RenderError::NoCompatibleQueueFamily)
}

/// Memory type `i` can back the buffers (its bit is set in the allowed
/// mask) and has every required property flag.
pub open spec fn memory_type_matches(
    allowed_mask: u32,
    flags: u32,
    required_flags: u32,
    i: int,
) -> bool {
    &&& (allowed_mask >> (i as u32)) & 1 == 1
    &&& flags & required_flags == required_flags
}

/// Picks the memory type for the frame buffers: among the types whose bit
/// is set in `allowed_mask` and whose property flags contain
/// `required_flags`, the one with the highest index — the scan keeps the
/// last match.  Reports failure when none matches.
pub fn pick_memory_type(allowed_mask: u32, type_flags: &Vec<u32>, required_flags: u32) -> (r:
    Result<usize, RenderError>)
    requires
        type_flags@.len() <= 32,
    ensures
        match r {
            Ok(i) => {
                &&& i < type_flags@.len()
                &&& memory_type_matches(allowed_mask, type_flags@[i as int], required_flags, i as int)
                &&& forall|j: int|
                    i < j < type_flags@.len() ==> !memory_type_matches(
                        allowed_mask,
                        #[trigger] type_flags@[j],
                        required_flags,
                        j,
                    )
            },
            Err(e) => {
                &&& e == RenderError::NoSuitableMemoryType
                &&& forall|j: int|
                    0 <= j < type_flags@.len() ==> !memory_type_matches(
                        allowed_mask,
                        #[trigger] type_flags@[j],
                        required_flags,
                        j,
                    )
            },
        },
{
    let mut best: Option<usize> = None;
    let mut i: usize = 0;
    while i < type_flags.len()
        invariant
            0 <= i <= type_flags@.len(),
            type_flags@.len() <= 32,
            match best {
                Some(b) => {
                    &&& b < i
                    &&& memory_type_matches(
                        allowed_mask,
                        type_flags@[b as int],
                        required_flags,
                        b as int,
                    )
                    &&& forall|j: int|
                        b < j < i ==> !memory_type_matches(
                            allowed_mask,
                            #[trigger] type_flags@[j],
                            required_flags,
                            j,
                        )
                },
                None => forall|j: int|
                    0 <= j < i ==> !memory_type_matches(
                        allowed_mask,
                        #[trigger] type_flags@[j],
                        required_flags,
                        j,
                    ),
            },
        decreases type_flags@.len() - i,
    {
        let bit_set = (allowed_mask >> (i as u32)) & 1 == 1;
        let flags = type_flags[i];
        if bit_set && (flags & required_flags) == required_flags {
            best = Some(i);
        }
        i = i + 1;
    }
    match best {
        Some(b) => Ok(b),
        None => Err(RenderError::NoSuitableMemoryType),
    }
}

} // verus!
