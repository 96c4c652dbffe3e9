//! Vulkan version triples, their packed form and their order.

use vstd::prelude::*;
use crate::vk::{packed, version_at_least};

verus! {

/// A Vulkan version `major.minor.patch`.
#[derive(Clone, Copy, Debug, PartialEq, Eq, Structural)]
pub struct ApiVersion {
    pub major: u32,
    pub minor: u32,
    pub patch: u32,
}

impl ApiVersion {
    /// `self` is `other` or a later version: the triples are compared
    /// lexicographically.
    pub open spec fn at_least(self, other: ApiVersion) -> bool {
        ||| self.major > other.major
        ||| self.major == other.major && self.minor > other.minor
        ||| self.major == other.major && self.minor == other.minor && self.patch >= other.patch
    }

    /// The packed form of this version.
    pub open spec fn packed(self) -> u32 {
        packed(self.major, self.minor, self.patch)
    }

    /// The version `major.minor.patch`.
    pub fn new(major: u32, minor: u32, patch: u32) -> (v: ApiVersion)
        ensures
            v == (ApiVersion { major, minor, patch }),
    {
        ApiVersion { major, minor, patch }
    }

    /// Packs the version into the 32-bit form that Vulkan structures carry.
    pub fn pack(&self) -> (r: u32)
        ensures
            r == self.packed(),
    {
        vulkanalia::vk::make_version(self.major, self.minor, self.patch)
    }

    /// Whether `self` is `other` or a later version.
    pub fn is_at_least(&self, other: &ApiVersion) -> (r: bool)
        ensures
            r == self.at_least(*other),
    {
        version_at_least(self, other)
    }
}

} // verus!
