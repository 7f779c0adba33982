use reaper_touchbar::engine::{SyncEngine, UiAction, WidgetConfig};
use reaper_touchbar::ids::{BarId, TrackId, WidgetId};
use reaper_touchbar::mode::Mode;
use reaper_touchbar::selection::SelectionPolicy;

fn widget(raw: u64) -> WidgetId {
    WidgetId { raw }
}

fn track(raw: u128) -> TrackId {
    TrackId { raw }
}

fn test_config() -> WidgetConfig {
    WidgetConfig::new(
        BarId { raw: 1 },
        widget(10),
        widget(11),
        widget(12),
        widget(13),
        widget(14),
    )
}

fn test_engine(policy: SelectionPolicy) -> SyncEngine {
    SyncEngine::new(test_config(), policy, None)
}

fn bar_swap_count(actions: &[UiAction]) -> usize {
    actions
        .iter()
        .filter(|a| matches!(a, UiAction::SetBarContents { .. }))
        .count()
}

fn label_text_of(actions: &[UiAction]) -> Option<String> {
    actions.iter().find_map(|a| match a {
        UiAction::UpdateLabel { text, .. } => Some(text.clone()),
        _ => None,
    })
}

fn slider_updates(actions: &[UiAction]) -> Vec<(u64, i64)> {
    actions
        .iter()
        .filter_map(|a| match a {
            UiAction::UpdateSlider { slider, volume } => Some((slider.raw, *volume)),
            _ => None,
        })
        .collect()
}

#[test]
fn label_reads_no_tracks_selected_while_count_is_zero() {
    let mut engine = test_engine(SelectionPolicy::SetBased);
    let actions = engine.handle_selection_changed(track(1), false, 0, 0);
    assert_eq!(
        label_text_of(&actions).as_deref(),
        Some("No tracks selected")
    );
    assert_eq!(bar_swap_count(&actions), 0);
    assert_eq!(engine.current_mode(), Mode::Normal);
}

#[test]
fn label_counts_one_selected_track() {
    let mut engine = test_engine(SelectionPolicy::SetBased);
    let actions = engine.handle_selection_changed(track(1), true, 1, 500_000);
    assert_eq!(label_text_of(&actions).as_deref(), Some("1 tracks selected"));
    assert_eq!(engine.current_mode(), Mode::Track);
}

#[test]
fn label_counts_two_selected_tracks() {
    let mut engine = test_engine(SelectionPolicy::SetBased);
    engine.handle_selection_changed(track(1), true, 1, 500_000);
    let actions = engine.handle_selection_changed(track(2), true, 2, 500_000);
    assert_eq!(label_text_of(&actions).as_deref(), Some("2 tracks selected"));
}

#[test]
fn deselecting_the_last_track_reverts_label_and_mode() {
    let mut engine = test_engine(SelectionPolicy::SetBased);
    let first = engine.handle_selection_changed(track(1), true, 1, 500_000);
    assert_eq!(bar_swap_count(&first), 1);
    assert_eq!(engine.current_mode(), Mode::Track);

    let second = engine.handle_selection_changed(track(1), false, 0, 500_000);
    assert_eq!(
        label_text_of(&second).as_deref(),
        Some("No tracks selected")
    );
    assert_eq!(engine.current_mode(), Mode::Normal);
    // Exactly one additional bar swap, back to the generic set.
    assert_eq!(bar_swap_count(&second), 1);
}

#[test]
fn selection_event_pushes_track_volume_to_slider() {
    let mut engine = test_engine(SelectionPolicy::SetBased);
    let actions = engine.handle_selection_changed(track(1), true, 1, 750_000);
    assert_eq!(slider_updates(&actions), vec![(14, 750_000)]);
}

#[test]
fn deselection_event_does_not_touch_the_slider() {
    let mut engine = test_engine(SelectionPolicy::SetBased);
    engine.handle_selection_changed(track(1), true, 1, 750_000);
    let actions = engine.handle_selection_changed(track(1), false, 0, 750_000);
    assert_eq!(slider_updates(&actions), vec![]);
}

#[test]
fn volume_change_on_selected_track_moves_the_slider() {
    let mut engine = test_engine(SelectionPolicy::SetBased);
    engine.handle_selection_changed(track(1), true, 1, 500_000);
    let actions = engine.handle_volume_changed(track(1), true, 750_000);
    assert_eq!(slider_updates(&actions), vec![(14, 750_000)]);
    assert_eq!(actions.len(), 1);
}

#[test]
fn volume_change_on_unselected_track_produces_no_ui_calls() {
    let mut engine = test_engine(SelectionPolicy::SetBased);
    engine.handle_selection_changed(track(1), true, 1, 500_000);
    let actions = engine.handle_volume_changed(track(2), false, 750_000);
    assert!(actions.is_empty());
}

#[test]
fn volume_change_updates_the_addressable_target() {
    let mut engine = test_engine(SelectionPolicy::SetBased);
    engine.handle_selection_changed(track(1), true, 1, 500_000);
    engine.handle_volume_changed(track(2), true, 250_000);
    assert_eq!(engine.volume_target(), Some(track(2)));
}

#[test]
fn repeated_selection_events_swap_the_bar_only_once() {
    let mut engine = test_engine(SelectionPolicy::SetBased);
    let first = engine.handle_selection_changed(track(1), true, 1, 0);
    let second = engine.handle_selection_changed(track(2), true, 2, 0);
    let third = engine.handle_selection_changed(track(3), true, 3, 0);
    assert_eq!(bar_swap_count(&first), 1);
    assert_eq!(bar_swap_count(&second), 0);
    assert_eq!(bar_swap_count(&third), 0);
}

#[test]
fn bar_swap_carries_the_track_widget_set() {
    let mut engine = test_engine(SelectionPolicy::SetBased);
    let actions = engine.handle_selection_changed(track(1), true, 1, 0);
    match &actions[0] {
        UiAction::SetBarContents { bar, items } => {
            assert_eq!(bar.raw, 1);
            let raws: Vec<u64> = items.iter().map(|w| w.raw).collect();
            assert_eq!(raws, vec![10, 12, 13, 14]);
        }
        other => panic!(
            "expected the first action to swap the bar, got {}",
            match other {
                UiAction::SetBarContents { .. } => "a bar swap",
                UiAction::UpdateLabel { .. } => "a label update",
                UiAction::UpdateSlider { .. } => "a slider update",
            }
        ),
    }
}

#[test]
fn bar_swap_back_carries_the_generic_widget_set() {
    let mut engine = test_engine(SelectionPolicy::SetBased);
    engine.handle_selection_changed(track(1), true, 1, 0);
    let actions = engine.handle_selection_changed(track(1), false, 0, 0);
    match &actions[0] {
        UiAction::SetBarContents { items, .. } => {
            let raws: Vec<u64> = items.iter().map(|w| w.raw).collect();
            assert_eq!(raws, vec![10, 11]);
        }
        _ => panic!("expected the first action to swap the bar"),
    }
}

#[test]
fn single_slot_mode_follows_the_reported_count() {
    let mut engine = test_engine(SelectionPolicy::SingleSlot);
    // The slot remembers a track, but the host reports nothing selected:
    // the mode must follow the count, not the slot.
    engine.handle_selection_changed(track(1), true, 1, 0);
    assert_eq!(engine.current_mode(), Mode::Track);
    let actions = engine.handle_selection_changed(track(1), false, 0, 0);
    assert_eq!(engine.current_mode(), Mode::Normal);
    assert_eq!(
        label_text_of(&actions).as_deref(),
        Some("No tracks selected")
    );
    // The slot stays sticky after a deselection.
    assert_eq!(engine.volume_target(), Some(track(1)));
}

#[test]
fn single_slot_label_shows_the_reported_count() {
    let mut engine = test_engine(SelectionPolicy::SingleSlot);
    let actions = engine.handle_selection_changed(track(7), true, 3, 0);
    assert_eq!(label_text_of(&actions).as_deref(), Some("3 tracks selected"));
}

#[test]
fn command_hook_never_suppresses_the_host_action() {
    let engine = test_engine(SelectionPolicy::SetBased);
    assert!(!engine.handle_command_invoked(40001));
    assert!(!engine.handle_command_invoked(0));
}

#[test]
fn targets_yield_every_selected_track() {
    let mut engine = test_engine(SelectionPolicy::SetBased);
    engine.handle_selection_changed(track(1), true, 1, 0);
    engine.handle_selection_changed(track(2), true, 2, 0);
    engine.handle_selection_changed(track(1), true, 2, 0);
    let targets = engine.targets();
    assert_eq!(targets.len(), 2);
    assert!(targets.contains(&track(1)));
    assert!(targets.contains(&track(2)));
}

#[test]
fn mode_tracks_the_selection_set_across_a_whole_sequence() {
    let mut engine = test_engine(SelectionPolicy::SetBased);
    let events: Vec<(u128, bool, u32)> = vec![
        (1, true, 1),
        (2, true, 2),
        (1, false, 1),
        (2, false, 0),
        (3, true, 1),
        (3, false, 0),
    ];
    let expected = vec![
        Mode::Track,
        Mode::Track,
        Mode::Track,
        Mode::Normal,
        Mode::Track,
        Mode::Normal,
    ];
    for ((raw, is_selected, count), want) in events.into_iter().zip(expected) {
        engine.handle_selection_changed(track(raw), is_selected, count, 0);
        assert_eq!(engine.current_mode(), want);
    }
}

#[test]
fn single_slot_targets_yield_the_remembered_track_only() {
    let mut engine = test_engine(SelectionPolicy::SingleSlot);
    assert!(engine.targets().is_empty());
    engine.handle_selection_changed(track(5), true, 2, 0);
    engine.handle_selection_changed(track(9), true, 2, 0);
    assert_eq!(engine.targets(), vec![track(9)]);
}
