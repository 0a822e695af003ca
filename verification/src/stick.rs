//! The integer part of stick normalization: the dead-zone that a
//! normalization actually uses.

use vstd::prelude::*;

verus! {

/// The largest dead-zone a normalization accepts: one below the largest
/// stick deflection, so that the range left above the dead-zone is never
/// empty.
pub const MAX_DEADZONE: i16 = 32766;

/// The dead-zone that a requested `deadzone` stands for: the request clamped
/// to `0 ..= MAX_DEADZONE`.
pub open spec fn effective_deadzone(deadzone: int) -> int {
    if deadzone < 0 {
        0
    } else if deadzone > MAX_DEADZONE {
        MAX_DEADZONE as int
    } else {
        deadzone
    }
}

/// A dead-zone request within `0 ..= MAX_DEADZONE` is used as it is; a
/// negative request means no dead-zone, and a request beyond the range means
/// the largest dead-zone; so the dead-zone used never decreases as the request
/// grows, and requesting the dead-zone used gives it back.
pub proof fn lemma_deadzone_request_kept(d: int, e: int)
    ensures
        0 <= d <= MAX_DEADZONE ==> effective_deadzone(d) == d,
        d < 0 ==> effective_deadzone(d) == 0,
        d > MAX_DEADZONE ==> effective_deadzone(d) == MAX_DEADZONE,
        d <= e ==> effective_deadzone(d) <= effective_deadzone(e),
        effective_deadzone(effective_deadzone(d)) == effective_deadzone(d),
{
}

/// Clamps a requested stick dead-zone to the range `0 ..= 32_766`
/// (inclusive), as stick normalization does before using it: negative
/// requests and requests at the maximum deflection would make the
/// normalization work improperly.
pub fn clamp_deadzone(deadzone: i16) -> (r: i16)
    ensures
        r as int == effective_deadzone(deadzone as int),
        0 <= r <= MAX_DEADZONE,
        0 <= deadzone <= MAX_DEADZONE ==> r == deadzone,
        deadzone < 0 ==> r == 0,
        deadzone > MAX_DEADZONE ==> r == MAX_DEADZONE,
{
    deadzone.max(0).min(i16::MAX - 1)
}

} // verus!
