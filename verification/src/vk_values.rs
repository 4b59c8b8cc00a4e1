//! Raw values of the Vulkan enumerants that the swapchain logic compares
//! against, read from `ash::vk`.

use vstd::prelude::*;

verus! {

/// Raw value of `VK_FORMAT_B8G8R8A8_SRGB`.
pub open spec fn bgra8_srgb_format() -> i32 {
    50
}

/// Raw value of `VK_COLOR_SPACE_SRGB_NONLINEAR_KHR`.
pub open spec fn srgb_nonlinear_color_space() -> i32 {
    0
}

/// Raw value of `VK_PRESENT_MODE_MAILBOX_KHR`.
pub open spec fn mailbox_present_mode() -> i32 {
    1
}

/// Raw value of `VK_PRESENT_MODE_FIFO_KHR`.
pub open spec fn fifo_present_mode() -> i32 {
    2
}

/// Raw value of `VK_SHARING_MODE_EXCLUSIVE`.
pub open spec fn exclusive_sharing_mode() -> i32 {
    0
}

/// Raw value of `VK_SHARING_MODE_CONCURRENT`.
pub open spec fn concurrent_sharing_mode() -> i32 {
    1
}

/// Raw value of `VK_IMAGE_USAGE_COLOR_ATTACHMENT_BIT`.
pub open spec fn color_attachment_usage() -> u32 {
    16
}

/// Raw value of `VK_COMPOSITE_ALPHA_OPAQUE_BIT_KHR`.
pub open spec fn opaque_composite_alpha() -> u32 {
    1
}

/// Raw value of `VK_TRUE`.
pub open spec fn vk_true() -> u32 {
    1
}

/// Reads `ash::vk::Format::B8G8R8A8_SRGB` through `Format::as_raw`; ash
/// defines that constant as `Format(50)` and `as_raw` returns the inner value.
#[verifier::external_body]
pub(crate) fn format_b8g8r8a8_srgb() -> (raw: i32)
    ensures
        raw == bgra8_srgb_format(),
{
    ash::vk::Format::B8G8R8A8_SRGB.as_raw()
}

/// Reads `ash::vk::ColorSpaceKHR::SRGB_NONLINEAR` through `as_raw`; ash
/// defines it as `ColorSpaceKHR(0)`.
#[verifier::external_body]
pub(crate) fn color_space_srgb_nonlinear() -> (raw: i32)
    ensures
        raw == srgb_nonlinear_color_space(),
{
    ash::vk::ColorSpaceKHR::SRGB_NONLINEAR.as_raw()
}

/// Reads `ash::vk::PresentModeKHR::MAILBOX` through `as_raw`; ash defines it
/// as `PresentModeKHR(1)`.
#[verifier::external_body]
pub(crate) fn present_mode_mailbox() -> (raw: i32)
    ensures
        raw == mailbox_present_mode(),
{
    ash::vk::PresentModeKHR::MAILBOX.as_raw()
}

/// Reads `ash::vk::PresentModeKHR::FIFO` through `as_raw`; ash defines it as
/// `PresentModeKHR(2)`.
#[verifier::external_body]
pub(crate) fn present_mode_fifo() -> (raw: i32)
    ensures
        raw == fifo_present_mode(),
{
    ash::vk::PresentModeKHR::FIFO.as_raw()
}

/// Reads `ash::vk::SharingMode::EXCLUSIVE` through `as_raw`; ash defines it
/// as `SharingMode(0)`.
#[verifier::external_body]
pub(crate) fn sharing_mode_exclusive() -> (raw: i32)
    ensures
        raw == exclusive_sharing_mode(),
{
    ash::vk::SharingMode::EXCLUSIVE.as_raw()
}

/// Reads `ash::vk::SharingMode::CONCURRENT` through `as_raw`; ash defines it
/// as `SharingMode(1)`.
#[verifier::external_body]
pub(crate) fn sharing_mode_concurrent() -> (raw: i32)
    ensures
        raw == concurrent_sharing_mode(),
{
    ash::vk::SharingMode::CONCURRENT.as_raw()
}

/// Reads `ash::vk::ImageUsageFlags::COLOR_ATTACHMENT` through `as_raw`; ash
/// defines it as `ImageUsageFlags(0b1_0000)`.
#[verifier::external_body]
pub(crate) fn image_usage_color_attachment() -> (raw: u32)
    ensures
        raw == color_attachment_usage(),
{
    ash::vk::ImageUsageFlags::COLOR_ATTACHMENT.as_raw()
}

/// Reads `ash::vk::CompositeAlphaFlagsKHR::OPAQUE` through `as_raw`; ash
/// defines it as `CompositeAlphaFlagsKHR(0b1)`.
#[verifier::external_body]
pub(crate) fn composite_alpha_opaque() -> (raw: u32)
    ensures
        raw == opaque_composite_alpha(),
{
    ash::vk::CompositeAlphaFlagsKHR::OPAQUE.as_raw()
}

/// Reads `ash::vk::TRUE`, which ash defines as the `Bool32` value `1`.
#[verifier::external_body]
pub(crate) fn bool32_true() -> (raw: u32)
    ensures
        raw == vk_true(),
{
    ash::vk::TRUE
}

} // verus!
