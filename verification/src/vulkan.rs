//! What the engine takes from the `ash` bindings without asking the driver:
//! the names of the extensions it enables and the packing of version numbers.

use vstd::prelude::*;

verus! {

/// The number that packs a version: the variant in the top three bits, then
/// seven bits of major, ten of minor and twelve of patch version.
pub open spec fn packed_version(variant: u32, major: u32, minor: u32, patch: u32) -> u32 {
    (variant << 29u32) | (major << 22u32) | (minor << 12u32) | patch
}

/// `ash::vk::make_api_version` shifts each part to its place and combines
/// them. It checks no part: one that is too wide for its place runs into the
/// place above, and is cut off at the top of the number.
pub assume_specification[ ash::vk::make_api_version ](
    variant: u32,
    major: u32,
    minor: u32,
    patch: u32,
) -> (version: u32)
    ensures
        version == packed_version(variant, major, minor, patch),
;

/// The name of the swapchain device extension, as
/// `ash::extensions::khr::Swapchain::name` gives it.
#[verifier::external_body]
pub(crate) fn swapchain_extension_name() -> (name: String)
    ensures
        name@ == "VK_KHR_swapchain"@,
{
    ash::extensions::khr::Swapchain::name().to_string_lossy().into_owned()
}

/// The name of the dynamic rendering feature, as
/// `ash::extensions::khr::DynamicRendering::name` gives it.
#[verifier::external_body]
pub(crate) fn dynamic_rendering_feature_name() -> (name: String)
    ensures
        name@ == "VK_KHR_dynamic_rendering"@,
{
    ash::extensions::khr::DynamicRendering::name().to_string_lossy().into_owned()
}

} // verus!
