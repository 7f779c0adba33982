//! Mapping widget activations to engine mutations, scoped to the tracked
//! selection.
//!
//! Each decision takes the host's resolution of the remembered identifiers
//! (a stale identifier resolves to nothing) and returns the mutations the
//! shell must ask the engine to perform. Resolution failures are silently
//! skipped: a track deleted since it was selected produces no mutation and
//! no error. The decisions are fire-and-forget — they never report back to
//! the UI layer.

use vstd::prelude::*;
use crate::ids::TrackId;
use crate::volume::ENGINE_MIN_VOLUME;
use crate::volume::ENGINE_SOFT_MAX_VOLUME;
use crate::volume::clamp_volume;
use crate::volume::clamped_volume;

verus! {

/// Pass-through behavioral flags for every engine mutation: whether it
/// propagates to ganged tracks and whether track grouping is honored. They
/// are configured once and copied into each action, never computed here.
#[derive(Clone, Copy, PartialEq, Eq, Structural, Debug)]
pub struct MutationFlags {
    /// Let the mutation propagate to ganged tracks.
    pub allow_gang: bool,
    /// Honor the host's track grouping for the mutation.
    pub use_grouping: bool,
}

/// One mutation the shell must ask the audio engine to perform.
#[derive(Clone, Copy, PartialEq, Eq, Structural, Debug)]
pub enum EngineAction {
    /// Mute the track.
    Mute { track: TrackId, flags: MutationFlags },
    /// Unmute the track.
    Unmute { track: TrackId, flags: MutationFlags },
    /// Solo the track.
    Solo { track: TrackId, flags: MutationFlags },
    /// Take the track out of solo.
    Unsolo { track: TrackId, flags: MutationFlags },
    /// Apply `volume` (millionths of the normalized unit, already clamped
    /// to the engine's range) to the track.
    SetVolume { track: TrackId, volume: i64, flags: MutationFlags },
}

/// A remembered track as the host resolved it at dispatch time: its stable
/// identifier and the current state of the controls the toggles read.
#[derive(Clone, Copy, PartialEq, Eq, Structural, Debug)]
pub struct ResolvedTrack {
    /// The track's stable identifier.
    pub id: TrackId,
    /// Whether the track is currently muted.
    pub muted: bool,
    /// Whether the track is currently soloed.
    pub soloed: bool,
}

/// The state of one track's mixing controls; [`apply_action`] gives each
/// [`EngineAction`] its meaning as a transformation of this state.
#[derive(Clone, Copy, PartialEq, Eq, Structural, Debug)]
pub struct TrackState {
    /// Whether the track is muted.
    pub muted: bool,
    /// Whether the track is soloed.
    pub soloed: bool,
    /// The track's volume in millionths of the normalized unit.
    pub volume: i64,
}

/// What an action does to the state of the track it addresses.
pub open spec fn apply_action(s: TrackState, a: EngineAction) -> TrackState {
    match a {
        EngineAction::Mute { .. } => TrackState { muted: true, ..s },
        EngineAction::Unmute { .. } => TrackState { muted: false, ..s },
        EngineAction::Solo { .. } => TrackState { soloed: true, ..s },
        EngineAction::Unsolo { .. } => TrackState { soloed: false, ..s },
        EngineAction::SetVolume { volume, .. } => TrackState { volume, ..s },
    }
}

/// Runs an action against a track state; lets a caller outside the proofs
/// observe exactly the transformation [`apply_action`] defines.
pub fn apply_action_to(s: TrackState, a: &EngineAction) -> (r: TrackState)
    ensures
        r == apply_action(s, *a),
{
    match a {
        EngineAction::Mute { .. } => TrackState { muted: true, ..s },
        EngineAction::Unmute { .. } => TrackState { muted: false, ..s },
        EngineAction::Solo { .. } => TrackState { soloed: true, ..s },
        EngineAction::Unsolo { .. } => TrackState { soloed: false, ..s },
        EngineAction::SetVolume { volume, .. } => TrackState { volume: *volume, ..s },
    }
}

/// The mute toggle for one resolved track: mute it if it is unmuted, unmute
/// it if it is muted.
pub open spec fn mute_decision(flags: MutationFlags, t: ResolvedTrack) -> EngineAction {
    if t.muted {
        EngineAction::Unmute { track: t.id, flags }
    } else {
        EngineAction::Mute { track: t.id, flags }
    }
}

/// The solo toggle for one resolved track: solo it if it is not soloed,
/// unsolo it if it is.
pub open spec fn solo_decision(flags: MutationFlags, t: ResolvedTrack) -> EngineAction {
    if t.soloed {
        EngineAction::Unsolo { track: t.id, flags }
    } else {
        EngineAction::Solo { track: t.id, flags }
    }
}

/// The mutations a mute toggle issues for a list of resolution results:
/// one toggle per resolved track, in order, and nothing for a stale one.
pub open spec fn mute_actions(flags: MutationFlags, targets: Seq<Option<ResolvedTrack>>) -> Seq<
    EngineAction,
>
    decreases targets.len(),
{
    if targets.len() == 0 {
        Seq::<EngineAction>::empty()
    } else {
        let rest = mute_actions(flags, targets.drop_last());
        match targets.last() {
            Some(t) => rest.push(mute_decision(flags, t)),
            None => rest,
        }
    }
}

/// The mutations a solo toggle issues for a list of resolution results.
pub open spec fn solo_actions(flags: MutationFlags, targets: Seq<Option<ResolvedTrack>>) -> Seq<
    EngineAction,
>
    decreases targets.len(),
{
    if targets.len() == 0 {
        Seq::<EngineAction>::empty()
    } else {
        let rest = solo_actions(flags, targets.drop_last());
        match targets.last() {
            Some(t) => rest.push(solo_decision(flags, t)),
            None => rest,
        }
    }
}

/// The mutation a volume write issues: nothing when the target is stale,
/// otherwise the clamped volume applied to the resolved track.
pub open spec fn set_volume_decision(
    flags: MutationFlags,
    target: Option<TrackId>,
    volume: i64,
) -> Option<EngineAction> {
    match target {
        None => None,
        Some(track) => Some(
            EngineAction::SetVolume { track, volume: clamped_volume(volume), flags },
        ),
    }
}

/// Maps widget activations to engine mutations, carrying the configured
/// pass-through flags into every action.
pub struct ActionDispatch {
    /// The gang/grouping flags copied into every mutation.
    pub flags: MutationFlags,
}

impl ActionDispatch {
    /// A dispatcher that stamps `flags` onto every mutation it issues.
    pub fn new(flags: MutationFlags) -> (r: Self)
        ensures
            r.flags == flags,
    {
        ActionDispatch { flags }
    }

    /// The mute toggle over the current targets, as the host resolved them:
    /// one flip per live track, a silent skip per stale identifier.
    pub fn mute_toggle(&self, targets: &Vec<Option<ResolvedTrack>>) -> (actions: Vec<EngineAction>)
        ensures
            actions@ == mute_actions(self.flags, targets@),
    {
        let mut actions: Vec<EngineAction> = Vec::new();
        let mut i: usize = 0;
        while i < targets.len()
            invariant
                i <= targets@.len(),
                actions@ == mute_actions(self.flags, targets@.take(i as int)),
            decreases targets@.len() - i,
        {
            match targets[i] {
                Some(t) => {
                    let action = if t.muted {
                        EngineAction::Unmute { track: t.id, flags: self.flags }
                    } else {
                        EngineAction::Mute { track: t.id, flags: self.flags }
                    };
                    actions.push(action);
                },
                None => {},
            }
            proof {
                assert(targets@.take(i + 1).drop_last() =~= targets@.take(i as int));
                assert(targets@.take(i + 1).last() == targets@[i as int]);
            }
            i = i + 1;
        }
        proof {
            assert(targets@.take(targets@.len() as int) =~= targets@);
        }
        actions
    }

    /// The solo toggle over the current targets, same shape as the mute
    /// toggle.
    pub fn solo_toggle(&self, targets: &Vec<Option<ResolvedTrack>>) -> (actions: Vec<EngineAction>)
        ensures
            actions@ == solo_actions(self.flags, targets@),
    {
        let mut actions: Vec<EngineAction> = Vec::new();
        let mut i: usize = 0;
        while i < targets.len()
            invariant
                i <= targets@.len(),
                actions@ == solo_actions(self.flags, targets@.take(i as int)),
            decreases targets@.len() - i,
        {
            match targets[i] {
                Some(t) => {
                    let action = if t.soloed {
                        EngineAction::Unsolo { track: t.id, flags: self.flags }
                    } else {
                        EngineAction::Solo { track: t.id, flags: self.flags }
                    };
                    actions.push(action);
                },
                None => {},
            }
            proof {
                assert(targets@.take(i + 1).drop_last() =~= targets@.take(i as int));
                assert(targets@.take(i + 1).last() == targets@[i as int]);
            }
            i = i + 1;
        }
        proof {
            assert(targets@.take(targets@.len() as int) =~= targets@);
        }
        actions
    }

    /// The volume write for the single addressable target, as the host
    /// resolved it: a no-op when the target is stale, otherwise the input
    /// clamped to the engine's representable range and applied.
    pub fn set_volume(&self, target: Option<TrackId>, volume: i64) -> (action: Option<
        EngineAction,
    >)
        ensures
            action == set_volume_decision(self.flags, target, volume),
    {
        match target {
            None => None,
            Some(track) => Some(
                EngineAction::SetVolume { track, volume: clamp_volume(volume), flags: self.flags },
            ),
        }
    }
}

/// Stale-identity tolerance: when every remembered identifier fails to
/// resolve, the toggles issue no mutation at all, and the volume write is a
/// no-op.
pub proof fn lemma_stale_targets_produce_no_actions(
    flags: MutationFlags,
    targets: Seq<Option<ResolvedTrack>>,
)
    requires
        forall|i: int| 0 <= i < targets.len() ==> targets[i] is None,
    ensures
        mute_actions(flags, targets).len() == 0,
        solo_actions(flags, targets).len() == 0,
        set_volume_decision(flags, None, 0) is None,
    decreases targets.len(),
{
    if targets.len() > 0 {
        lemma_stale_targets_produce_no_actions(flags, targets.drop_last());
    }
}

/// Volume clamp law: whatever value the UI hands over, the mutation the
/// engine is asked to perform carries a volume within its representable
/// range, and a stale target carries none at all.
pub proof fn lemma_set_volume_in_engine_range(
    flags: MutationFlags,
    target: Option<TrackId>,
    volume: i64,
)
    ensures
        set_volume_decision(flags, target, volume) matches Some(a) ==> (
        a matches EngineAction::SetVolume { volume: applied, .. } && ENGINE_MIN_VOLUME <= applied
            <= ENGINE_SOFT_MAX_VOLUME),
        target is None <==> set_volume_decision(flags, target, volume) is None,
{
}

/// Mute toggling is a pure flip: for a track whose mute control reads
/// `false`, the issued mutation leaves it reading `true`, and toggling once
/// more restores `false`. Solo toggling flips the same way, and neither
/// toggle touches the other control or the volume.
pub proof fn lemma_toggles_flip(flags: MutationFlags, id: TrackId, s: TrackState)
    ensures
        ({
            let once = apply_action(
                s,
                mute_decision(flags, ResolvedTrack { id, muted: s.muted, soloed: s.soloed }),
            );
            let twice = apply_action(
                once,
                mute_decision(
                    flags,
                    ResolvedTrack { id, muted: once.muted, soloed: once.soloed },
                ),
            );
            once.muted == !s.muted && twice == s && once.soloed == s.soloed && once.volume
                == s.volume
        }),
        ({
            let once = apply_action(
                s,
                solo_decision(flags, ResolvedTrack { id, muted: s.muted, soloed: s.soloed }),
            );
            let twice = apply_action(
                once,
                solo_decision(
                    flags,
                    ResolvedTrack { id, muted: once.muted, soloed: once.soloed },
                ),
            );
            once.soloed == !s.soloed && twice == s && once.muted == s.muted && once.volume
                == s.volume
        }),
{
}

} // verus!
