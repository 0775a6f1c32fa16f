//! The places where the library leans on `ash`. Each item here is trusted:
//! its contract restates what the `ash` source (version 0.38) shows.

use crate::vulkan::search::first_true;
use vstd::prelude::*;

verus! {

/// `ash::LoadingError`, the failure to load the Vulkan library.
#[verifier::external_type_specification]
#[verifier::external_body]
pub struct ExLoadingError(ash::LoadingError);

/// `VK_QUEUE_GRAPHICS_BIT` is set in the raw queue flags.
pub open spec fn has_graphics_bit(queue_flags: u32) -> bool {
    queue_flags & 1u32 == 1u32
}

/// Calls `ash::vk::QueueFlags::contains` with `QueueFlags::GRAPHICS` on raw flags.
/// ash defines `GRAPHICS` as `0b1` and `contains(other)` as `self & other == other`,
/// so the answer is whether bit 0 of the flags is set.
#[verifier::external_body]
pub(crate) fn queue_flags_contain_graphics(queue_flags: u32) -> (r: bool)
    ensures
        r == has_graphics_bit(queue_flags),
{
    ash::vk::QueueFlags::from_raw(queue_flags).contains(ash::vk::QueueFlags::GRAPHICS)
}

/// The packed version number of Vulkan's `VK_MAKE_API_VERSION`.
pub open spec fn spec_make_api_version(variant: u32, major: u32, minor: u32, patch: u32) -> u32 {
    (variant << 29u32) | (major << 22u32) | (minor << 12u32) | patch
}

/// Calls `ash::vk::make_api_version`, which ash writes as
/// `(variant << 29) | (major << 22) | (minor << 12) | patch`.
#[verifier::external_body]
pub(crate) fn make_api_version(variant: u32, major: u32, minor: u32, patch: u32) -> (r: u32)
    ensures
        r == spec_make_api_version(variant, major, minor, patch),
{
    ash::vk::make_api_version(variant, major, minor, patch)
}

/// Reads `ash::vk::API_VERSION_1_3`, which ash defines as `make_api_version(0, 1, 3, 0)`.
#[verifier::external_body]
pub(crate) fn api_version_1_3() -> (r: u32)
    ensures
        r == spec_make_api_version(0, 1, 3, 0),
{
    ash::vk::API_VERSION_1_3
}

/// The raw code of `VK_ERROR_INITIALIZATION_FAILED`.
pub open spec fn initialization_failed_code() -> i32 {
    -3i32
}

/// Reads `ash::vk::Result::ERROR_INITIALIZATION_FAILED` as a raw code;
/// ash defines it as `Self(-3)` and `as_raw` returns the inner value.
#[verifier::external_body]
pub(crate) fn error_initialization_failed() -> (r: i32)
    ensures
        r == initialization_failed_code(),
{
    ash::vk::Result::ERROR_INITIALIZATION_FAILED.as_raw()
}

/// The characters of `VK_EXT_debug_utils`.
pub open spec fn debug_utils_extension_name_chars() -> Seq<char> {
    seq![
        'V', 'K', '_', 'E', 'X', 'T', '_', 'd', 'e', 'b', 'u', 'g', '_', 'u', 't', 'i', 'l', 's',
    ]
}

/// Calls `CStr::to_str` on `ash::vk::EXT_DEBUG_UTILS_NAME`. ash defines that constant
/// from the bytes `VK_EXT_debug_utils` followed by a nul; they are ASCII, so the
/// conversion succeeds with exactly those characters.
#[verifier::external_body]
pub(crate) fn debug_utils_extension_name() -> (r: Result<String, String>)
    ensures
        r is Ok,
        r->Ok_0@ == debug_utils_extension_name_chars(),
{
    ash::vk::EXT_DEBUG_UTILS_NAME.to_str().map(|name| name.to_string()).map_err(|err| err.to_string())
}

/// Marks the nul characters of a fixed-size C string buffer.
pub open spec fn nul_marks(raw: Seq<i8>) -> Seq<bool> {
    Seq::new(raw.len(), |i: int| raw[i] == 0i8)
}

/// The bytes of a nul-terminated name stored in a fixed-size buffer: those before
/// the first nul, or `None` when the buffer holds no nul.
pub open spec fn c_string_bytes(raw: Seq<i8>) -> Option<Seq<u8>> {
    match first_true(nul_marks(raw)) {
        Some(n) => Some(Seq::new(n as nat, |i: int| raw[i] as u8)),
        None => None,
    }
}

/// Calls `ash::vk::LayerProperties::layer_name_as_c_str` on a layer-name buffer.
/// ash implements it with `CStr::from_bytes_until_nul` over the buffer's bytes, which
/// gives the bytes before the first nul, and an error when there is no nul.
#[verifier::external_body]
pub(crate) fn layer_name_bytes(raw: &[i8; 256]) -> (r: Option<Vec<u8>>)
    ensures
        match r {
            Some(name) => c_string_bytes(raw@) == Some(name@),
            None => c_string_bytes(raw@) is None,
        },
{
    let mut properties = ash::vk::LayerProperties::default();
    properties.layer_name = raw.map(|c| c as _);
    properties.layer_name_as_c_str().ok().map(|name| name.to_bytes().to_vec())
}

} // verus!
