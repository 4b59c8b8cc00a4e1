//! Choosing the swapchain configuration from what a surface supports.
//!
//! The surface reports the formats, present modes and image limits it
//! supports; from these and the queue families in use the renderer picks the
//! surface format, the present mode, the image extent, the number of images
//! and how images are shared between queue families.

use vstd::prelude::*;

use crate::vk_values::{
    bgra8_srgb_format, bool32_true, color_attachment_usage, color_space_srgb_nonlinear,
    composite_alpha_opaque, image_usage_color_attachment, opaque_composite_alpha, vk_true, concurrent_sharing_mode, exclusive_sharing_mode,
    fifo_present_mode, format_b8g8r8a8_srgb, mailbox_present_mode, present_mode_fifo,
    present_mode_mailbox, sharing_mode_concurrent, sharing_mode_exclusive,
    srgb_nonlinear_color_space,
};

verus! {

/// Width and height of an image, in pixels.
#[derive(Clone, Copy, Debug, PartialEq, Eq, Structural)]
pub struct Extent2D {
    pub width: u32,
    pub height: u32,
}

/// A pixel format together with the color space it is presented in, both by
/// their raw Vulkan values.
#[derive(Clone, Copy, Debug, PartialEq, Eq, Structural)]
pub struct SurfaceFormat {
    pub format: i32,
    pub color_space: i32,
}

/// The limits of a surface that the swapchain configuration depends on.
#[derive(Clone, Copy, Debug, PartialEq, Eq, Structural)]
pub struct SurfaceCapabilities {
    pub min_image_count: u32,
    /// Zero when the surface sets no upper limit.
    pub max_image_count: u32,
    /// `u32::MAX` wide when the window decides the extent.
    pub current_extent: Extent2D,
    pub min_image_extent: Extent2D,
    pub max_image_extent: Extent2D,
    /// Raw Vulkan surface transform flags currently applied by the surface.
    pub current_transform: u32,
}

/// What a physical device supports for presenting to a surface.
#[derive(Clone, Debug)]
pub struct SwapchainSupport {
    pub capabilities: SurfaceCapabilities,
    pub formats: Vec<SurfaceFormat>,
    /// Raw Vulkan present modes.
    pub present_modes: Vec<i32>,
}

/// The queue families that draw and present.
#[derive(Clone, Copy, Debug, PartialEq, Eq)]
pub struct QueueFamilyIndices {
    pub graphics_family: Option<u32>,
    pub present_family: Option<u32>,
}

/// How swapchain images are shared between queue families.
#[derive(Clone, Debug, PartialEq, Eq)]
pub struct SharingPlan {
    /// Raw Vulkan sharing mode.
    pub mode: i32,
    pub queue_family_index_count: u32,
    pub queue_family_indices: Vec<u32>,
}

/// The settings the swapchain is created with, apart from the surface it
/// presents to and the handles Vulkan hands out.
#[derive(Clone, Debug, PartialEq, Eq)]
pub struct SwapchainPlan {
    pub surface_format: SurfaceFormat,
    /// Raw Vulkan present mode.
    pub present_mode: i32,
    pub extent: Extent2D,
    pub image_count: u32,
    pub sharing: SharingPlan,
    pub image_array_layers: u32,
    /// Raw Vulkan image usage flags.
    pub image_usage: u32,
    /// Raw Vulkan surface transform flags applied before presentation.
    pub pre_transform: u32,
    /// Raw Vulkan composite alpha flags.
    pub composite_alpha: u32,
    /// Raw Vulkan `Bool32`: whether pixels hidden by other windows may be
    /// discarded.
    pub clipped: u32,
}

/// 8-bit BGRA sRGB pixels in the non-linear sRGB color space.
pub open spec fn preferred_format() -> SurfaceFormat {
    SurfaceFormat { format: bgra8_srgb_format(), color_space: srgb_nonlinear_color_space() }
}

pub open spec fn is_preferred_format(f: SurfaceFormat) -> bool {
    f == preferred_format()
}

pub open spec fn offers_preferred_format(formats: Seq<SurfaceFormat>) -> bool {
    exists|i: int| 0 <= i < formats.len() && is_preferred_format(#[trigger] formats[i])
}

/// The preferred format where the surface offers it, else the first one.
pub open spec fn chosen_format(formats: Seq<SurfaceFormat>) -> SurfaceFormat {
    if offers_preferred_format(formats) {
        preferred_format()
    } else {
        formats[0]
    }
}

/// Mailbox presentation where the surface offers it, else FIFO, which every
/// surface supports.
pub open spec fn chosen_present_mode(modes: Seq<i32>) -> i32 {
    if modes.contains(mailbox_present_mode()) {
        mailbox_present_mode()
    } else {
        fifo_present_mode()
    }
}

/// `value` brought into `[low, high]`.
pub open spec fn clamped(value: u32, low: u32, high: u32) -> u32 {
    if value < low {
        low
    } else if value > high {
        high
    } else {
        value
    }
}

/// The surface's current extent, unless it is `u32::MAX` wide, which means
/// that the window size decides, brought within the surface's limits.
pub open spec fn chosen_extent(caps: SurfaceCapabilities, window_size: Extent2D) -> Extent2D {
    if caps.current_extent.width != u32::MAX {
        caps.current_extent
    } else {
        Extent2D {
            width: clamped(
                window_size.width,
                caps.min_image_extent.width,
                caps.max_image_extent.width,
            ),
            height: clamped(
                window_size.height,
                caps.min_image_extent.height,
                caps.max_image_extent.height,
            ),
        }
    }
}

/// What `choose_swapchain_extent` needs: where the window decides, the
/// surface's limits are ordered.
pub open spec fn extent_limits_ordered(caps: SurfaceCapabilities) -> bool {
    caps.current_extent.width == u32::MAX ==> {
        &&& caps.min_image_extent.width <= caps.max_image_extent.width
        &&& caps.min_image_extent.height <= caps.max_image_extent.height
    }
}

/// One image more than the minimum, so that the renderer need not wait on the
/// driver, but no more than the maximum where there is one.
pub open spec fn chosen_image_count(caps: SurfaceCapabilities) -> int {
    let wanted = caps.min_image_count + 1;
    if caps.max_image_count > 0 && caps.max_image_count < wanted {
        caps.max_image_count as int
    } else {
        wanted
    }
}

pub open spec fn families_differ(families: QueueFamilyIndices) -> bool {
    families.graphics_family != families.present_family
}

/// What `choose_sharing` needs: distinct families are both known.
pub open spec fn families_known_where_distinct(families: QueueFamilyIndices) -> bool {
    families_differ(families) ==> (families.graphics_family is Some
        && families.present_family is Some)
}

/// Images are shared concurrently by the two families where they differ, and
/// owned by one family otherwise.
pub open spec fn is_sharing_plan_for(plan: SharingPlan, families: QueueFamilyIndices) -> bool {
    if families_differ(families) {
        &&& plan.mode == concurrent_sharing_mode()
        &&& plan.queue_family_index_count == 2
        &&& plan.queue_family_indices@ == seq![
            families.graphics_family->0,
            families.present_family->0,
        ]
    } else {
        &&& plan.mode == exclusive_sharing_mode()
        &&& plan.queue_family_index_count == 0
        &&& plan.queue_family_indices@ == Seq::<u32>::empty()
    }
}

/// Calls `num::clamp`, which (num-traits 0.2.19) debug-asserts `min <= max`
/// and returns `min` when `input < min`, `max` when `input > max`, and `input`
/// otherwise.
#[verifier::external_body]
fn clamp_u32(input: u32, min: u32, max: u32) -> (r: u32)
    requires
        min <= max,
    ensures
        r == clamped(input, min, max),
{
    num::clamp(input, min, max)
}

/// Picks the 8-bit BGRA sRGB format in the non-linear sRGB color space where
/// the surface offers it, and the surface's first format otherwise.
pub fn choose_swapchain_format(available_formats: &Vec<SurfaceFormat>) -> (chosen: SurfaceFormat)
    requires
        available_formats.len() > 0,
    ensures
        chosen == chosen_format(available_formats@),
        available_formats@.contains(chosen),
        (exists|i: int|
            #![trigger available_formats@[i]]
            0 <= i < available_formats@.len() && available_formats@[i].format
                == bgra8_srgb_format() && available_formats@[i].color_space
                == srgb_nonlinear_color_space()) ==> (chosen.format == bgra8_srgb_format()
            && chosen.color_space == srgb_nonlinear_color_space()),
        (forall|i: int|
            #![trigger available_formats@[i]]
            0 <= i < available_formats@.len() ==> !(available_formats@[i].format
                == bgra8_srgb_format() && available_formats@[i].color_space
                == srgb_nonlinear_color_space())) ==> chosen == available_formats@[0],
{
    let wanted_format = format_b8g8r8a8_srgb();
    let wanted_color_space = color_space_srgb_nonlinear();
    let mut i: usize = 0;
    while i < available_formats.len()
        invariant
            i <= available_formats.len(),
            wanted_format == bgra8_srgb_format(),
            wanted_color_space == srgb_nonlinear_color_space(),
            forall|j: int| 0 <= j < i ==> !is_preferred_format(#[trigger] available_formats@[j]),
        decreases available_formats.len() - i,
    {
        let candidate = available_formats[i];
        if candidate.format == wanted_format && candidate.color_space == wanted_color_space {
            assert(is_preferred_format(available_formats@[i as int]));
            return candidate;
        }
        i = i + 1;
    }
    assert(!offers_preferred_format(available_formats@));
    assert(available_formats@.contains(available_formats@[0]));
    available_formats[0]
}

/// Picks mailbox presentation where the surface offers it, and FIFO otherwise.
pub fn choose_swapchain_present_mode(available_present_modes: &Vec<i32>) -> (mode: i32)
    ensures
        mode == chosen_present_mode(available_present_modes@),
        mode == mailbox_present_mode() || mode == fifo_present_mode(),
        mode == mailbox_present_mode() ==> available_present_modes@.contains(mode),
        available_present_modes@.contains(mailbox_present_mode()) ==> mode
            == mailbox_present_mode(),
        !available_present_modes@.contains(mailbox_present_mode()) ==> mode
            == fifo_present_mode(),
{
    let mailbox = present_mode_mailbox();
    let mut i: usize = 0;
    while i < available_present_modes.len()
        invariant
            i <= available_present_modes.len(),
            mailbox == mailbox_present_mode(),
            forall|j: int| 0 <= j < i ==> available_present_modes@[j] != mailbox,
        decreases available_present_modes.len() - i,
    {
        if available_present_modes[i] == mailbox {
            assert(available_present_modes@.contains(mailbox));
            return mailbox;
        }
        i = i + 1;
    }
    present_mode_fifo()
}

/// Uses the surface's current extent unless the surface leaves the extent to
/// the window (a current width of `u32::MAX`); then the window's size is
/// clamped, each dimension on its own, to the surface's limits.
pub fn choose_swapchain_extent(capabilities: &SurfaceCapabilities, window_size: Extent2D) -> (extent:
    Extent2D)
    requires
        extent_limits_ordered(*capabilities),
    ensures
        extent == chosen_extent(*capabilities, window_size),
        capabilities.current_extent.width != u32::MAX ==> extent == capabilities.current_extent,
        capabilities.current_extent.width == u32::MAX ==> {
            &&& window_size.width < capabilities.min_image_extent.width ==> extent.width
                == capabilities.min_image_extent.width
            &&& window_size.width > capabilities.max_image_extent.width ==> extent.width
                == capabilities.max_image_extent.width
            &&& capabilities.min_image_extent.width <= window_size.width
                <= capabilities.max_image_extent.width ==> extent.width == window_size.width
            &&& window_size.height < capabilities.min_image_extent.height ==> extent.height
                == capabilities.min_image_extent.height
            &&& window_size.height > capabilities.max_image_extent.height ==> extent.height
                == capabilities.max_image_extent.height
            &&& capabilities.min_image_extent.height <= window_size.height
                <= capabilities.max_image_extent.height ==> extent.height == window_size.height
        },
{
    if capabilities.current_extent.width != u32::MAX {
        capabilities.current_extent
    } else {
        Extent2D {
            width: clamp_u32(
                window_size.width,
                capabilities.min_image_extent.width,
                capabilities.max_image_extent.width,
            ),
            height: clamp_u32(
                window_size.height,
                capabilities.min_image_extent.height,
                capabilities.max_image_extent.height,
            ),
        }
    }
}

/// Asks for one image more than the surface's minimum, capped by its maximum
/// where it has one.
pub fn swapchain_image_count(capabilities: &SurfaceCapabilities) -> (count: u32)
    requires
        capabilities.min_image_count < u32::MAX,
    ensures
        count == chosen_image_count(*capabilities),
        (capabilities.max_image_count == 0 || capabilities.max_image_count
            > capabilities.min_image_count) ==> count == capabilities.min_image_count + 1,
        (capabilities.max_image_count > 0 && capabilities.max_image_count
            <= capabilities.min_image_count) ==> count == capabilities.max_image_count,
        count >= 1,
        capabilities.max_image_count > 0 ==> count <= capabilities.max_image_count,
        capabilities.max_image_count == 0 ==> count == capabilities.min_image_count + 1,
{
    let image_count = capabilities.min_image_count + 1;
    if capabilities.max_image_count > 0 && capabilities.max_image_count < image_count {
        capabilities.max_image_count
    } else {
        image_count
    }
}

/// Shares images concurrently between the graphics and the present family
/// where they differ, and exclusively otherwise.
pub fn choose_sharing(queue_family: &QueueFamilyIndices) -> (plan: SharingPlan)
    requires
        families_known_where_distinct(*queue_family),
    ensures
        is_sharing_plan_for(plan, *queue_family),
        plan.queue_family_indices.len() == plan.queue_family_index_count,
        queue_family.graphics_family == queue_family.present_family ==> {
            &&& plan.mode == exclusive_sharing_mode()
            &&& plan.queue_family_index_count == 0
            &&& plan.queue_family_indices@.len() == 0
        },
        queue_family.graphics_family != queue_family.present_family ==> {
            &&& plan.mode == concurrent_sharing_mode()
            &&& plan.queue_family_index_count == 2
            &&& plan.queue_family_indices@ == seq![
                queue_family.graphics_family->0,
                queue_family.present_family->0,
            ]
        },
{
    let distinct = match (queue_family.graphics_family, queue_family.present_family) {
        (Some(g), Some(p)) => g != p,
        (None, None) => false,
        _ => true,
    };
    if distinct {
        let graphics = match queue_family.graphics_family {
            Some(g) => g,
            None => 0,
        };
        let present = match queue_family.present_family {
            Some(p) => p,
            None => 0,
        };
        let indices = vec![graphics, present];
        assert(indices@ == seq![graphics, present]);
        SharingPlan {
            mode: sharing_mode_concurrent(),
            queue_family_index_count: 2,
            queue_family_indices: indices,
        }
    } else {
        let indices: Vec<u32> = Vec::new();
        SharingPlan {
            mode: sharing_mode_exclusive(),
            queue_family_index_count: 0,
            queue_family_indices: indices,
        }
    }
}

/// Decides the settings of the swapchain: format, present mode, extent, image
/// count and sharing as chosen above, and single-layer images used as color
/// attachments, presented opaque and clipped, with the surface's current
/// transform.
pub fn plan_swapchain(
    support: &SwapchainSupport,
    window_size: Extent2D,
    queue_family: &QueueFamilyIndices,
) -> (plan: SwapchainPlan)
    requires
        support.formats.len() > 0,
        extent_limits_ordered(support.capabilities),
        support.capabilities.min_image_count < u32::MAX,
        families_known_where_distinct(*queue_family),
    ensures
        plan.surface_format == chosen_format(support.formats@),
        plan.present_mode == chosen_present_mode(support.present_modes@),
        plan.extent == chosen_extent(support.capabilities, window_size),
        plan.image_count == chosen_image_count(support.capabilities),
        is_sharing_plan_for(plan.sharing, *queue_family),
        plan.image_array_layers == 1,
        plan.image_usage == color_attachment_usage(),
        plan.pre_transform == support.capabilities.current_transform,
        plan.composite_alpha == opaque_composite_alpha(),
        plan.clipped == vk_true(),
{
    let surface_format = choose_swapchain_format(&support.formats);
    let present_mode = choose_swapchain_present_mode(&support.present_modes);
    let extent = choose_swapchain_extent(&support.capabilities, window_size);
    let image_count = swapchain_image_count(&support.capabilities);
    let sharing = choose_sharing(queue_family);
    SwapchainPlan {
        surface_format,
        present_mode,
        extent,
        image_count,
        sharing,
        image_array_layers: 1,
        image_usage: image_usage_color_attachment(),
        pre_transform: support.capabilities.current_transform,
        composite_alpha: composite_alpha_opaque(),
        clipped: bool32_true(),
    }
}

/// Where the window decides the extent, the chosen extent respects the
/// surface's minimum and maximum extent in both dimensions.
pub proof fn lemma_chosen_extent_within_limits(caps: SurfaceCapabilities, window_size: Extent2D)
    requires
        extent_limits_ordered(caps),
        caps.current_extent.width == u32::MAX,
    ensures
        caps.min_image_extent.width <= chosen_extent(caps, window_size).width
            <= caps.max_image_extent.width,
        caps.min_image_extent.height <= chosen_extent(caps, window_size).height
            <= caps.max_image_extent.height,
{
}

/// Where the surface reports its current extent, the window size plays no
/// part in the chosen extent.
pub proof fn lemma_chosen_extent_ignores_window(
    caps: SurfaceCapabilities,
    first: Extent2D,
    second: Extent2D,
)
    requires
        caps.current_extent.width != u32::MAX,
    ensures
        chosen_extent(caps, first) == chosen_extent(caps, second),
        chosen_extent(caps, first) == caps.current_extent,
{
}

/// The image count lies within the surface's limits: above the minimum unless
/// the maximum forbids it, never above a maximum that is set, and never zero.
pub proof fn lemma_image_count_within_limits(caps: SurfaceCapabilities)
    requires
        caps.min_image_count < u32::MAX,
    ensures
        chosen_image_count(caps) >= 1,
        caps.max_image_count > 0 ==> chosen_image_count(caps) <= caps.max_image_count,
        (caps.max_image_count == 0 || caps.max_image_count > caps.min_image_count)
            ==> chosen_image_count(caps) == caps.min_image_count + 1,
        caps.max_image_count >= caps.min_image_count ==> chosen_image_count(caps)
            >= caps.min_image_count,
{
}

/// The preferred format is chosen wherever it stands in the surface's list,
/// and the first format is chosen only when the preferred one is absent.
pub proof fn lemma_format_choice(formats: Seq<SurfaceFormat>, i: int)
    requires
        0 <= i < formats.len(),
    ensures
        formats[i].format == bgra8_srgb_format() && formats[i].color_space
            == srgb_nonlinear_color_space() ==> chosen_format(formats).format
            == bgra8_srgb_format() && chosen_format(formats).color_space
            == srgb_nonlinear_color_space(),
        (forall|j: int|
            #![trigger formats[j]]
            0 <= j < formats.len() ==> !(formats[j].format == bgra8_srgb_format()
                && formats[j].color_space == srgb_nonlinear_color_space()))
            ==> chosen_format(formats) == formats[0],
{
    if formats[i].format == bgra8_srgb_format() && formats[i].color_space
        == srgb_nonlinear_color_space() {
        assert(is_preferred_format(formats[i]));
    }
}

/// Mailbox presentation is chosen wherever it stands in the surface's list,
/// and FIFO exactly when mailbox is not offered.
pub proof fn lemma_present_mode_choice(modes: Seq<i32>, i: int)
    requires
        0 <= i < modes.len(),
    ensures
        modes[i] == mailbox_present_mode() ==> chosen_present_mode(modes)
            == mailbox_present_mode(),
        (forall|j: int| 0 <= j < modes.len() ==> modes[j] != mailbox_present_mode())
            ==> chosen_present_mode(modes) == fifo_present_mode(),
{
    if modes[i] == mailbox_present_mode() {
        assert(modes.contains(mailbox_present_mode()));
    }
}

/// FIFO is chosen for a surface that reports no present mode at all.
pub proof fn lemma_present_mode_empty()
    ensures
        chosen_present_mode(Seq::<i32>::empty()) == fifo_present_mode(),
{
}

/// One family that draws and presents owns the images exclusively and lists
/// no families; distinct families share them concurrently, listing graphics
/// then present.
pub proof fn lemma_sharing_choice(plan: SharingPlan, families: QueueFamilyIndices)
    requires
        is_sharing_plan_for(plan, families),
    ensures
        families.graphics_family == families.present_family ==> plan.mode
            == exclusive_sharing_mode() && plan.queue_family_index_count == 0
            && plan.queue_family_indices@.len() == 0,
        families.graphics_family != families.present_family ==> plan.mode
            == concurrent_sharing_mode() && plan.queue_family_index_count == 2
            && plan.queue_family_indices@.len() == 2 && plan.queue_family_indices@[0]
            == families.graphics_family->0 && plan.queue_family_indices@[1]
            == families.present_family->0,
        plan.mode == concurrent_sharing_mode() ==> families.graphics_family
            != families.present_family,
{
}

/// Where the window decides, each dimension of the extent is the window's
/// size when it fits, and the nearest limit otherwise.
pub proof fn lemma_extent_choice(caps: SurfaceCapabilities, window_size: Extent2D)
    requires
        caps.current_extent.width == u32::MAX,
        extent_limits_ordered(caps),
    ensures
        window_size.width < caps.min_image_extent.width ==> chosen_extent(caps, window_size).width
            == caps.min_image_extent.width,
        window_size.width > caps.max_image_extent.width ==> chosen_extent(caps, window_size).width
            == caps.max_image_extent.width,
        caps.min_image_extent.width <= window_size.width <= caps.max_image_extent.width
            ==> chosen_extent(caps, window_size).width == window_size.width,
        window_size.height < caps.min_image_extent.height ==> chosen_extent(
            caps,
            window_size,
        ).height == caps.min_image_extent.height,
        window_size.height > caps.max_image_extent.height ==> chosen_extent(
            caps,
            window_size,
        ).height == caps.max_image_extent.height,
        caps.min_image_extent.height <= window_size.height <= caps.max_image_extent.height
            ==> chosen_extent(caps, window_size).height == window_size.height,
{
}

/// The image count is one above the minimum unless a set maximum is reached,
/// in which case it is that maximum.
pub proof fn lemma_image_count_choice(caps: SurfaceCapabilities)
    requires
        caps.min_image_count < u32::MAX,
    ensures
        caps.max_image_count > 0 && caps.max_image_count <= caps.min_image_count
            ==> chosen_image_count(caps) == caps.max_image_count,
        (caps.max_image_count == 0 || caps.max_image_count > caps.min_image_count)
            ==> chosen_image_count(caps) == caps.min_image_count + 1,
{
}

} // verus!
