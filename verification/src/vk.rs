//! The boundary to `vulkanalia`: every name, flag and version rule that the
//! library takes from that crate, each with the contract it is trusted to
//! meet. Nothing here is proved; everything else in the library is proved
//! from these contracts.

use crate::version::ApiVersion;
use vstd::prelude::*;
use vulkanalia::vk::{
    DebugUtilsMessageSeverityFlagsEXT, DebugUtilsMessageTypeFlagsEXT, InstanceCreateFlags,
    EXT_DEBUG_UTILS_EXTENSION, KHR_GET_PHYSICAL_DEVICE_PROPERTIES2_EXTENSION,
    KHR_PORTABILITY_ENUMERATION_EXTENSION,
};
use vulkanalia::Version;

verus! {

/// The packed form of a version: the major number from bit 22 up, the minor
/// number from bit 12 up, the patch number in the low bits. Bits shifted past
/// bit 31 are lost.
pub open spec fn packed(major: u32, minor: u32, patch: u32) -> u32 {
    (major << 22) | (minor << 12) | patch
}

/// The name of the debug-utils instance extension.
pub open spec fn debug_utils_name() -> Seq<char> {
    "VK_EXT_debug_utils"@
}

/// The name of the physical-device-properties extension.
pub open spec fn physical_device_properties_name() -> Seq<char> {
    "VK_KHR_get_physical_device_properties2"@
}

/// The name of the portability-enumeration extension.
pub open spec fn portability_enumeration_name() -> Seq<char> {
    "VK_KHR_portability_enumeration"@
}

/// Instance creation flags with the portability-enumeration bit alone.
pub open spec fn portability_bit() -> u32 {
    1
}

/// The least severity mask that counts as informational.
pub open spec fn info_threshold() -> u32 {
    0x10
}

/// The least severity mask that counts as a warning.
pub open spec fn warning_threshold() -> u32 {
    0x100
}

/// The least severity mask that counts as an error.
pub open spec fn error_threshold() -> u32 {
    0x1000
}

/// The mask of every message severity.
pub open spec fn every_severity() -> u32 {
    0x1111
}

/// The mask of every message type.
pub open spec fn every_message_type() -> u32 {
    0xf
}

/// `vulkanalia::vk::make_version` packs its three arguments by shifting the
/// major number left by 22 bits, the minor number by 12 bits, and or-ing both
/// with the patch number. It never panics.
pub assume_specification[ vulkanalia::vk::make_version ](major: u32, minor: u32, patch: u32) -> (r:
    u32)
    ensures
        r == packed(major, minor, patch),
;

/// The derived order of `vulkanalia::Version` compares the major numbers
/// first, then the minor numbers, then the patch numbers. This builds two such
/// values with `Version::new` and compares them with `>=`.
#[verifier::external_body]
pub(crate) fn version_at_least(a: &ApiVersion, b: &ApiVersion) -> (r: bool)
    ensures
        r == a.at_least(*b),
{
    Version::new(a.major, a.minor, a.patch) >= Version::new(b.major, b.minor, b.patch)
}

/// The text of `vulkanalia::vk::EXT_DEBUG_UTILS_EXTENSION.name`. The crate
/// builds that name from the bytes `VK_EXT_debug_utils`, and its `Display`
/// impl, which `to_string` goes through, gives the bytes before the first
/// NUL as text.
#[verifier::external_body]
pub(crate) fn debug_utils_extension() -> (name: String)
    ensures
        name@ == debug_utils_name(),
{
    EXT_DEBUG_UTILS_EXTENSION.name.to_string()
}

/// The text of
/// `vulkanalia::vk::KHR_GET_PHYSICAL_DEVICE_PROPERTIES2_EXTENSION.name`. The
/// crate builds that name from the bytes
/// `VK_KHR_get_physical_device_properties2`; `to_string` gives them back as
/// text.
#[verifier::external_body]
pub(crate) fn physical_device_properties_extension() -> (name: String)
    ensures
        name@ == physical_device_properties_name(),
{
    KHR_GET_PHYSICAL_DEVICE_PROPERTIES2_EXTENSION.name.to_string()
}

/// The text of `vulkanalia::vk::KHR_PORTABILITY_ENUMERATION_EXTENSION.name`.
/// The crate builds that name from the bytes `VK_KHR_portability_enumeration`;
/// `to_string` gives them back as text.
#[verifier::external_body]
pub(crate) fn portability_enumeration_extension() -> (name: String)
    ensures
        name@ == portability_enumeration_name(),
{
    KHR_PORTABILITY_ENUMERATION_EXTENSION.name.to_string()
}

/// The bits of `vulkanalia::vk::InstanceCreateFlags::ENUMERATE_PORTABILITY_KHR`,
/// declared as `1`.
#[verifier::external_body]
pub(crate) fn enumerate_portability_flags() -> (bits: u32)
    ensures
        bits == portability_bit(),
{
    InstanceCreateFlags::ENUMERATE_PORTABILITY_KHR.bits()
}

/// The bits of `vulkanalia::vk::InstanceCreateFlags::empty()`: none is set.
#[verifier::external_body]
pub(crate) fn empty_instance_flags() -> (bits: u32)
    ensures
        bits == 0,
{
    InstanceCreateFlags::empty().bits()
}

/// The bits of `vulkanalia::vk::DebugUtilsMessageSeverityFlagsEXT::INFO`,
/// declared as `1 << 4`.
#[verifier::external_body]
pub(crate) fn info_severity() -> (bits: u32)
    ensures
        bits == info_threshold(),
{
    DebugUtilsMessageSeverityFlagsEXT::INFO.bits()
}

/// The bits of `vulkanalia::vk::DebugUtilsMessageSeverityFlagsEXT::WARNING`,
/// declared as `1 << 8`.
#[verifier::external_body]
pub(crate) fn warning_severity() -> (bits: u32)
    ensures
        bits == warning_threshold(),
{
    DebugUtilsMessageSeverityFlagsEXT::WARNING.bits()
}

/// The bits of `vulkanalia::vk::DebugUtilsMessageSeverityFlagsEXT::ERROR`,
/// declared as `1 << 12`.
#[verifier::external_body]
pub(crate) fn error_severity() -> (bits: u32)
    ensures
        bits == error_threshold(),
{
    DebugUtilsMessageSeverityFlagsEXT::ERROR.bits()
}

/// The bits of `vulkanalia::vk::DebugUtilsMessageSeverityFlagsEXT::all()`:
/// the union of the four declared severities, `1`, `1 << 4`, `1 << 8` and
/// `1 << 12`.
#[verifier::external_body]
pub(crate) fn all_severities() -> (bits: u32)
    ensures
        bits == every_severity(),
{
    DebugUtilsMessageSeverityFlagsEXT::all().bits()
}

/// The bits of `vulkanalia::vk::DebugUtilsMessageTypeFlagsEXT::all()`: the
/// union of the four declared types, `1`, `1 << 1`, `1 << 2` and `1 << 3`.
#[verifier::external_body]
pub(crate) fn all_message_types() -> (bits: u32)
    ensures
        bits == every_message_type(),
{
    DebugUtilsMessageTypeFlagsEXT::all().bits()
}

/// `vulkanalia::vk::FALSE`, the 32-bit boolean `0`.
#[verifier::external_body]
pub(crate) fn vk_false() -> (value: u32)
    ensures
        value == 0,
{
    vulkanalia::vk::FALSE
}

} // verus!
