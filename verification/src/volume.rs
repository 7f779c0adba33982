//! Volume representation and the clamp rule for writing a slider value back
//! to the audio engine.
//!
//! Volumes cross this crate as integers in millionths of the normalized
//! fader unit, so a fader at unity gain is `1_000_000`. The UI slider shows
//! the range `[0, 1_000_000]`; the engine itself accepts boost above unity up
//! to a documented soft maximum of four units. A UI-driven value is clamped
//! to that ceiling before it is applied, and anything below the engine's
//! representable minimum is floored to the minimum rather than rejected.

use vstd::prelude::*;

verus! {

/// The lowest volume the engine can represent, in millionths of the
/// normalized unit (silence).
pub const ENGINE_MIN_VOLUME: i64 = 0;

/// The soft ceiling for UI-driven volume writes, in millionths of the
/// normalized unit: four times unity gain.
pub const ENGINE_SOFT_MAX_VOLUME: i64 = 4_000_000;

/// One normalized fader unit (unity gain) in this crate's integer volume
/// representation.
pub const VOLUME_UNIT: i64 = 1_000_000;

/// The volume the engine is asked to apply when the UI hands over `v`:
/// `v` limited to `[ENGINE_MIN_VOLUME, ENGINE_SOFT_MAX_VOLUME]`.
pub open spec fn clamped_volume(v: i64) -> i64 {
    if v < ENGINE_MIN_VOLUME {
        ENGINE_MIN_VOLUME
    } else if v > ENGINE_SOFT_MAX_VOLUME {
        ENGINE_SOFT_MAX_VOLUME
    } else {
        v
    }
}

/// Clamps a UI-driven volume to the engine's representable range.
pub fn clamp_volume(v: i64) -> (r: i64)
    ensures
        r == clamped_volume(v),
{
    if v < ENGINE_MIN_VOLUME {
        ENGINE_MIN_VOLUME
    } else if v > ENGINE_SOFT_MAX_VOLUME {
        ENGINE_SOFT_MAX_VOLUME
    } else {
        v
    }
}

/// Every clamped volume lies within the engine's representable range: the
/// engine is never asked to apply a value below its minimum or above its
/// soft maximum, whatever the UI handed over.
pub proof fn lemma_clamped_volume_in_engine_range(v: i64)
    ensures
        ENGINE_MIN_VOLUME <= clamped_volume(v) <= ENGINE_SOFT_MAX_VOLUME,
        ENGINE_MIN_VOLUME <= v <= ENGINE_SOFT_MAX_VOLUME ==> clamped_volume(v) == v,
        v > ENGINE_SOFT_MAX_VOLUME ==> clamped_volume(v) == ENGINE_SOFT_MAX_VOLUME,
        v < ENGINE_MIN_VOLUME ==> clamped_volume(v) == ENGINE_MIN_VOLUME,
{
}

} // verus!
