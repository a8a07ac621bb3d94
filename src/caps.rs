use vstd::prelude::*;

verus! {

/// Width and height of an image or viewport, in pixels.
#[derive(Clone, Copy, Debug, PartialEq, Eq, Structural)]
pub struct Extent {
    pub width: u32,
    pub height: u32,
}

/// Extent used when the surface leaves the chain's extent to the application.
pub const DEFAULT_WIDTH: u32 = 1280;

pub const DEFAULT_HEIGHT: u32 = 1024;

/// The image usage bit for a colour attachment.
pub const COLOR_ATTACHMENT_USAGE: u32 = 0x10;

/// What a queue family of the selected device offers to this bootstrap.
#[derive(Clone, Copy, Debug, PartialEq, Eq, Structural)]
pub struct QueueFamily {
    pub supports_graphics: bool,
    /// Whether the family can present to the bound surface.
    pub supports_present: bool,
}

/// A (format, colour space) pair that the surface supports, as backend codes.
#[derive(Clone, Copy, Debug, PartialEq, Eq, Structural)]
pub struct SurfaceFormat {
    pub format: u32,
    pub color_space: u32,
}

/// What the surface reports for the selected device.
#[derive(Clone, Debug)]
pub struct SurfaceCaps {
    pub min_image_count: u32,
    /// `None` where the surface lets the application choose the extent.
    pub current_extent: Option<Extent>,
    /// Bit set of the image usages the surface supports.
    pub supported_usage: u32,
    pub formats: Vec<SurfaceFormat>,
    pub present_modes: Vec<u32>,
    pub composite_alphas: Vec<u32>,
}

/// The agreed parameters of a presentation chain.
#[derive(Clone, Copy, Debug, PartialEq, Eq, Structural)]
pub struct ChainConfig {
    pub image_count: u32,
    pub format: SurfaceFormat,
    pub extent: Extent,
    pub layers: u32,
    pub usage: u32,
    pub present_mode: u32,
    pub composite_alpha: u32,
    pub identity_transform: bool,
    pub clipped: bool,
}

pub open spec fn default_extent() -> Extent {
    Extent { width: DEFAULT_WIDTH, height: DEFAULT_HEIGHT }
}

pub open spec fn suitable(f: QueueFamily) -> bool {
    f.supports_graphics && f.supports_present
}

/// Index of the first family at or after `i` that can both draw and present.
pub open spec fn first_suitable_from(fams: Seq<QueueFamily>, i: nat) -> Option<nat>
    decreases fams.len() - i,
{
    if i >= fams.len() {
        None
    } else if suitable(fams[i as int]) {
        Some(i)
    } else {
        first_suitable_from(fams, i + 1)
    }
}

/// Index of the first family that can both draw and present, if any.
pub open spec fn first_suitable(fams: Seq<QueueFamily>) -> Option<nat> {
    first_suitable_from(fams, 0)
}

pub open spec fn extent_for(current: Option<Extent>) -> Extent {
    match current {
        Some(e) => e,
        None => default_extent(),
    }
}

/// Whether the surface offers everything a chain needs.
pub open spec fn chain_possible(caps: SurfaceCaps) -> bool {
    &&& caps.min_image_count > 0
    &&& caps.formats@.len() > 0
    &&& caps.present_modes@.len() > 0
    &&& caps.composite_alphas@.len() > 0
    &&& caps.supported_usage & COLOR_ATTACHMENT_USAGE != 0
}

/// The chain parameters chosen from the surface's capabilities: the first
/// supported format, present mode and composite alpha, the minimum image count,
/// the current extent or the default one.
pub open spec fn chain_for(caps: SurfaceCaps) -> ChainConfig {
    ChainConfig {
        image_count: caps.min_image_count,
        format: caps.formats@[0],
        extent: extent_for(caps.current_extent),
        layers: 1,
        usage: caps.supported_usage & COLOR_ATTACHMENT_USAGE,
        present_mode: caps.present_modes@[0],
        composite_alpha: caps.composite_alphas@[0],
        identity_transform: true,
        clipped: true,
    }
}

/// The error-free part of the chain negotiation, as a result.
pub open spec fn negotiated(caps: SurfaceCaps) -> Option<ChainConfig> {
    if chain_possible(caps) {
        Some(chain_for(caps))
    } else {
        None
    }
}

/// The first queue family that supports graphics and can present to the surface.
pub fn select_queue_family(fams: &Vec<QueueFamily>) -> (r: Option<usize>)
    ensures
        r matches Some(i) ==> first_suitable(fams@) == Some(i as nat),
        r is None ==> first_suitable(fams@) is None,
        r matches Some(i) ==> i < fams@.len() && suitable(fams@[i as int]),
        r is None <==> forall|i: int| 0 <= i < fams@.len() ==> !suitable(#[trigger] fams@[i]),
{
    let mut i: usize = 0;
    while i < fams.len()
        invariant
            i <= fams@.len(),
            forall|j: int| 0 <= j < i ==> !suitable(#[trigger] fams@[j]),
            first_suitable(fams@) == first_suitable_from(fams@, i as nat),
        decreases fams@.len() - i,
    {
        let f = fams[i];
        if f.supports_graphics && f.supports_present {
            return Some(i);
        }
        i = i + 1;
    }
    None
}

/// The chain's extent: the surface's current extent, or the default where the
/// surface leaves it undefined.
pub fn chain_extent(current: Option<Extent>) -> (r: Extent)
    ensures
        r == extent_for(current),
        current is None ==> r.width == 1280 && r.height == 1024,
{
    match current {
        Some(e) => e,
        None => Extent { width: DEFAULT_WIDTH, height: DEFAULT_HEIGHT },
    }
}

/// Agrees the chain's parameters with the surface; `None` where the surface
/// offers no format, present mode, composite alpha, image or colour-attachment
/// usage.
pub fn negotiate_chain(caps: &SurfaceCaps) -> (r: Option<ChainConfig>)
    ensures
        r == negotiated(*caps),
{
    if caps.min_image_count == 0 || caps.formats.len() == 0 || caps.present_modes.len() == 0
        || caps.composite_alphas.len() == 0
        || caps.supported_usage & COLOR_ATTACHMENT_USAGE == 0 {
        return None;
    }
    Some(
        ChainConfig {
            image_count: caps.min_image_count,
            format: caps.formats[0],
            extent: chain_extent(caps.current_extent),
            layers: 1,
            usage: caps.supported_usage & COLOR_ATTACHMENT_USAGE,
            present_mode: caps.present_modes[0],
            composite_alpha: caps.composite_alphas[0],
            identity_transform: true,
            clipped: true,
        },
    )
}

} // verus!
