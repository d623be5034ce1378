//! Flag words of the graphics API, tested through `ash`.
//!
//! The library carries flag sets as the raw 32-bit words that the API
//! reports. The subset tests go through the flag types of `ash`, so that
//! the library and the application agree on what "contains" means.

use vstd::prelude::*;

verus! {

/// Whether every bit of `required` is set in `flags`.
pub open spec fn has_flags(flags: u32, required: u32) -> bool {
    flags & required == required
}

/// Calls `ash::vk::MemoryPropertyFlags::contains` on the two raw words.
///
/// Trusted: the result is claimed to be the subset test
/// `flags & required == required`, which is how `ash` defines `contains`
/// for every flag type.
#[verifier::external_body]
pub(crate) fn memory_flags_contain(flags: u32, required: u32) -> (found: bool)
    ensures
        found == has_flags(flags, required),
{
    ash::vk::MemoryPropertyFlags::from_raw(flags).contains(
        ash::vk::MemoryPropertyFlags::from_raw(required),
    )
}

/// Calls `ash::vk::QueueFlags::contains` on the two raw words.
///
/// Trusted: the result is claimed to be the subset test
/// `flags & required == required`.
#[verifier::external_body]
pub(crate) fn queue_flags_contain(flags: u32, required: u32) -> (found: bool)
    ensures
        found == has_flags(flags, required),
{
    ash::vk::QueueFlags::from_raw(flags).contains(ash::vk::QueueFlags::from_raw(required))
}

} // verus!
