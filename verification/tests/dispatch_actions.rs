use reaper_touchbar::dispatch::{
    apply_action_to, ActionDispatch, EngineAction, MutationFlags, ResolvedTrack, TrackState,
};
use reaper_touchbar::ids::TrackId;
use reaper_touchbar::label::label_text;
use reaper_touchbar::mode::{Mode, ModeController};
use reaper_touchbar::volume::{clamp_volume, ENGINE_MIN_VOLUME, ENGINE_SOFT_MAX_VOLUME, VOLUME_UNIT};

fn track(raw: u128) -> TrackId {
    TrackId { raw }
}

fn flags() -> MutationFlags {
    MutationFlags {
        allow_gang: true,
        use_grouping: true,
    }
}

fn resolved(raw: u128, muted: bool, soloed: bool) -> ResolvedTrack {
    ResolvedTrack {
        id: track(raw),
        muted,
        soloed,
    }
}

#[test]
fn stale_targets_produce_no_mutations() {
    let dispatch = ActionDispatch::new(flags());
    assert!(dispatch.mute_toggle(&vec![None]).is_empty());
    assert!(dispatch.solo_toggle(&vec![None, None]).is_empty());
    assert!(dispatch.set_volume(None, 500_000).is_none());
}

#[test]
fn mute_toggle_skips_stale_targets_and_keeps_live_ones() {
    let dispatch = ActionDispatch::new(flags());
    let actions = dispatch.mute_toggle(&vec![
        Some(resolved(1, false, false)),
        None,
        Some(resolved(2, true, false)),
    ]);
    assert_eq!(actions.len(), 2);
    assert_eq!(
        actions[0],
        EngineAction::Mute {
            track: track(1),
            flags: flags()
        }
    );
    assert_eq!(
        actions[1],
        EngineAction::Unmute {
            track: track(2),
            flags: flags()
        }
    );
}

#[test]
fn solo_toggle_flips_each_resolved_track() {
    let dispatch = ActionDispatch::new(flags());
    let actions = dispatch.solo_toggle(&vec![
        Some(resolved(1, false, true)),
        Some(resolved(2, false, false)),
    ]);
    assert_eq!(
        actions,
        vec![
            EngineAction::Unsolo {
                track: track(1),
                flags: flags()
            },
            EngineAction::Solo {
                track: track(2),
                flags: flags()
            },
        ]
    );
}

#[test]
fn mute_toggle_twice_restores_the_track_state() {
    let dispatch = ActionDispatch::new(flags());
    let start = TrackState {
        muted: false,
        soloed: true,
        volume: 500_000,
    };

    let first = dispatch.mute_toggle(&vec![Some(resolved(1, start.muted, start.soloed))]);
    let once = apply_action_to(start, &first[0]);
    assert!(once.muted);
    assert_eq!(once.soloed, start.soloed);
    assert_eq!(once.volume, start.volume);

    let second = dispatch.mute_toggle(&vec![Some(resolved(1, once.muted, once.soloed))]);
    let twice = apply_action_to(once, &second[0]);
    assert_eq!(twice, start);
}

#[test]
fn solo_toggle_twice_restores_the_track_state() {
    let dispatch = ActionDispatch::new(flags());
    let start = TrackState {
        muted: true,
        soloed: false,
        volume: 250_000,
    };

    let first = dispatch.solo_toggle(&vec![Some(resolved(1, start.muted, start.soloed))]);
    let once = apply_action_to(start, &first[0]);
    assert!(once.soloed);
    assert_eq!(once.muted, start.muted);

    let second = dispatch.solo_toggle(&vec![Some(resolved(1, once.muted, once.soloed))]);
    let twice = apply_action_to(once, &second[0]);
    assert_eq!(twice, start);
}

#[test]
fn set_volume_applies_a_value_inside_the_range_unchanged() {
    let dispatch = ActionDispatch::new(flags());
    let action = dispatch.set_volume(Some(track(1)), 750_000);
    assert_eq!(
        action,
        Some(EngineAction::SetVolume {
            track: track(1),
            volume: 750_000,
            flags: flags()
        })
    );
}

#[test]
fn set_volume_clamps_a_boost_beyond_the_soft_maximum() {
    let dispatch = ActionDispatch::new(flags());
    let action = dispatch.set_volume(Some(track(1)), 9_000_000);
    assert_eq!(
        action,
        Some(EngineAction::SetVolume {
            track: track(1),
            volume: ENGINE_SOFT_MAX_VOLUME,
            flags: flags()
        })
    );
}

#[test]
fn set_volume_floors_a_value_below_the_minimum() {
    let dispatch = ActionDispatch::new(flags());
    let action = dispatch.set_volume(Some(track(1)), -3);
    assert_eq!(
        action,
        Some(EngineAction::SetVolume {
            track: track(1),
            volume: ENGINE_MIN_VOLUME,
            flags: flags()
        })
    );
}

#[test]
fn clamp_volume_hits_the_exact_bounds() {
    assert_eq!(clamp_volume(VOLUME_UNIT), VOLUME_UNIT);
    assert_eq!(clamp_volume(ENGINE_MIN_VOLUME), ENGINE_MIN_VOLUME);
    assert_eq!(clamp_volume(ENGINE_SOFT_MAX_VOLUME), ENGINE_SOFT_MAX_VOLUME);
    assert_eq!(clamp_volume(ENGINE_SOFT_MAX_VOLUME + 1), ENGINE_SOFT_MAX_VOLUME);
    assert_eq!(clamp_volume(ENGINE_MIN_VOLUME - 1), ENGINE_MIN_VOLUME);
    assert_eq!(clamp_volume(i64::MAX), ENGINE_SOFT_MAX_VOLUME);
    assert_eq!(clamp_volume(i64::MIN), ENGINE_MIN_VOLUME);
}

#[test]
fn transition_swaps_only_on_a_real_mode_change() {
    let mut controller = ModeController::new();
    assert_eq!(controller.current, Mode::Normal);
    assert!(!controller.transition_if_needed(Mode::Normal));
    assert!(controller.transition_if_needed(Mode::Track));
    assert!(!controller.transition_if_needed(Mode::Track));
    assert!(controller.transition_if_needed(Mode::Normal));
    assert!(!controller.transition_if_needed(Mode::Normal));
}

#[test]
fn label_text_renders_exact_counts() {
    assert_eq!(label_text(0), "No tracks selected");
    assert_eq!(label_text(1), "1 tracks selected");
    assert_eq!(label_text(2), "2 tracks selected");
    assert_eq!(label_text(10), "10 tracks selected");
    assert_eq!(label_text(37), "37 tracks selected");
    assert_eq!(label_text(1000), "1000 tracks selected");
}
