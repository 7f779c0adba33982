//! Identifier value types: stable track identities and opaque widget handles.

use vstd::prelude::*;

verus! {

/// A persistent identifier for a host track. It survives track reordering
/// and undo, unlike a positional index or a transient in-memory handle, and
/// it dangles once the track is deleted: a lookup by a stale identifier must
/// fail cleanly, and every consumer in this crate treats that failure as
/// "not found", never as an error.
#[derive(Clone, Copy, PartialEq, Eq, Structural, Debug, Hash)]
pub struct TrackId {
    /// The raw 128-bit identity the host assigned to the track.
    pub raw: u128,
}

/// An opaque handle for one widget (label, button or slider) owned by the
/// control-strip surface. The surface keeps the widget alive for the whole
/// process; this crate only stores and compares handles, it never interprets
/// them.
#[derive(Clone, Copy, PartialEq, Eq, Structural, Debug, Hash)]
pub struct WidgetId {
    /// The raw handle value the surface returned at creation time.
    pub raw: u64,
}

/// An opaque handle for the root bar whose visible item sequence is swapped
/// when the mode changes.
#[derive(Clone, Copy, PartialEq, Eq, Structural, Debug, Hash)]
pub struct BarId {
    /// The raw handle value the surface returned at creation time.
    pub raw: u64,
}

} // verus!
