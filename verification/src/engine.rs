//! The orchestration façade: it receives host notifications, updates the
//! selection tracker, drives the mode machine, and says exactly which widget
//! updates the surface must perform.
//!
//! Handlers never talk to the host or the surface themselves: each returns
//! the ordered sequence of [`UiAction`] values the shell must carry out, and
//! takes as arguments the host-query results it depends on (the selected
//! count after a selection change, whether a track is still selected when
//! its volume moves).

use vstd::prelude::*;
use crate::ids::BarId;
use crate::ids::TrackId;
use crate::ids::WidgetId;
use crate::label::label_text;
use crate::label::label_text_spec;
use crate::mode::Mode;
use crate::mode::ModeController;
use crate::mode::mode_for;
use crate::selection::SelectionEvent;
use crate::selection::SelectionPolicy;
use crate::selection::SelectionTracker;
use crate::selection::TrackerModel;
use crate::selection::tracker_display_count;
use crate::selection::tracker_has_selection;
use crate::selection::tracker_step;

verus! {

broadcast use vstd::set::group_set_axioms;

/// The fixed widget handles the engine addresses, created once at startup,
/// and the two widget sets the root bar alternates between. Both sets keep
/// the shared label, so the label survives a mode swap without being
/// recreated.
pub struct WidgetConfig {
    /// The root bar whose visible items are swapped on a mode change.
    pub bar: BarId,
    /// The shared status label, present in both widget sets.
    pub label: WidgetId,
    /// The track-volume slider, part of the track widget set.
    pub volume_slider: WidgetId,
    /// The items shown while no track is selected.
    pub normal_elements: Vec<WidgetId>,
    /// The items shown while a track is selected.
    pub track_elements: Vec<WidgetId>,
}

impl WidgetConfig {
    /// Both widget sets carry the shared label, and the track set carries
    /// the volume slider.
    pub open spec fn wf(self) -> bool {
        &&& self.normal_elements@.contains(self.label)
        &&& self.track_elements@.contains(self.label)
        &&& self.track_elements@.contains(self.volume_slider)
    }

    /// Assembles the configuration from the handles created at startup: the
    /// generic set is the label plus the tempo button, the track set is the
    /// label plus the mute and solo buttons and the volume slider.
    pub fn new(
        bar: BarId,
        label: WidgetId,
        tempo_button: WidgetId,
        mute_button: WidgetId,
        solo_button: WidgetId,
        volume_slider: WidgetId,
    ) -> (r: Self)
        ensures
            r.wf(),
            r.bar == bar,
            r.label == label,
            r.volume_slider == volume_slider,
            r.normal_elements@ == seq![label, tempo_button],
            r.track_elements@ == seq![label, mute_button, solo_button, volume_slider],
    {
        let mut normal_elements: Vec<WidgetId> = Vec::new();
        normal_elements.push(label);
        normal_elements.push(tempo_button);
        let mut track_elements: Vec<WidgetId> = Vec::new();
        track_elements.push(label);
        track_elements.push(mute_button);
        track_elements.push(solo_button);
        track_elements.push(volume_slider);
        proof {
            assert(normal_elements@ =~= seq![label, tempo_button]);
            assert(track_elements@ =~= seq![label, mute_button, solo_button, volume_slider]);
            assert(normal_elements@[0] == label);
            assert(track_elements@[0] == label);
            assert(track_elements@[3] == volume_slider);
        }
        WidgetConfig { bar, label, volume_slider, normal_elements, track_elements }
    }
}

/// The widget set the bar shows in mode `m`.
pub open spec fn elements_for(config: WidgetConfig, m: Mode) -> Seq<WidgetId> {
    match m {
        Mode::Track => config.track_elements@,
        Mode::Normal => config.normal_elements@,
    }
}

/// One update the shell must perform on the widget surface, in the order
/// the engine returned them.
pub enum UiAction {
    /// Replace the visible item sequence of `bar` with `items`.
    SetBarContents { bar: BarId, items: Vec<WidgetId> },
    /// Set the text of the label widget `label` to `text`.
    UpdateLabel { label: WidgetId, text: String },
    /// Move the slider widget `slider` to `volume`, in millionths of the
    /// normalized fader unit.
    UpdateSlider { slider: WidgetId, volume: i64 },
}

/// The mathematical model of the engine: the tracker's model plus the mode
/// the bar currently shows.
#[verifier::ext_equal]
pub ghost struct EngineModel {
    /// The selection tracker's model.
    pub tracker: TrackerModel,
    /// The mode the bar currently shows.
    pub mode: Mode,
}

/// How one selection notification changes the engine: the tracker steps,
/// then the mode is recomputed from the new selection state.
pub open spec fn engine_step(m: EngineModel, e: SelectionEvent) -> EngineModel {
    let tracker = tracker_step(m.tracker, e);
    EngineModel { tracker, mode: mode_for(tracker_has_selection(tracker)) }
}

/// The engine after a whole sequence of selection notifications, first one
/// first.
pub open spec fn engine_run(m: EngineModel, events: Seq<SelectionEvent>) -> EngineModel
    decreases events.len(),
{
    if events.len() == 0 {
        m
    } else {
        engine_run(engine_step(m, events[0]), events.drop_first())
    }
}

/// The engine's mode always matches its selection state.
pub open spec fn mode_matches_selection(m: EngineModel) -> bool {
    m.mode == mode_for(tracker_has_selection(m.tracker))
}

/// Mode derivation law: after any sequence of selection notifications,
/// starting from any state whose mode matches its selection state (a fresh
/// engine does), the mode is `Track` exactly when the selection state is
/// non-empty — the selection set under the set-based strategy, the reported
/// count under the single-slot strategy.
pub proof fn lemma_mode_derivation(m: EngineModel, events: Seq<SelectionEvent>)
    requires
        mode_matches_selection(m),
    ensures
        mode_matches_selection(engine_run(m, events)),
        engine_run(m, events).mode == Mode::Track <==> tracker_has_selection(
            engine_run(m, events).tracker,
        ),
    decreases events.len(),
{
    if events.len() > 0 {
        lemma_mode_derivation(engine_step(m, events[0]), events.drop_first());
    }
}

/// The selection-driven synchronization engine.
pub struct SyncEngine {
    config: WidgetConfig,
    tracker: SelectionTracker,
    controller: ModeController,
}

impl View for SyncEngine {
    type V = EngineModel;

    closed spec fn view(&self) -> EngineModel {
        EngineModel { tracker: self.tracker@, mode: self.controller.current }
    }
}

impl SyncEngine {
    /// The engine's widget configuration, fixed at construction.
    pub closed spec fn config_spec(self) -> WidgetConfig {
        self.config
    }

    /// The tracker keeps its representation invariant, the configuration is
    /// well formed, and the mode matches the selection state.
    pub closed spec fn wf(self) -> bool {
        &&& self.tracker.wf()
        &&& self.config.wf()
        &&& mode_matches_selection(self@)
    }

    /// A fresh engine: no track recorded as selected, mode `Normal`, and
    /// the addressable slot preloaded with whatever the host said was
    /// selected at startup.
    pub fn new(config: WidgetConfig, policy: SelectionPolicy, initial_last: Option<
        TrackId,
    >) -> (r: Self)
        requires
            config.wf(),
        ensures
            r.wf(),
            r.config_spec() == config,
            r@.mode == Mode::Normal,
            r@.tracker.policy == policy,
            r@.tracker.last_selected == initial_last,
            r@.tracker.selected == Set::<TrackId>::empty(),
            r@.tracker.reported_count == 0,
    {
        let tracker = SelectionTracker::new(policy, initial_last);
        let controller = ModeController::new();
        SyncEngine { config, tracker, controller }
    }

    /// Handles a selection-change notification. `reported_count` is the
    /// host's selected-track count after the change, and `current_volume`
    /// the changed track's current volume in millionths of the normalized
    /// unit.
    ///
    /// The tracker steps, the mode is recomputed, and the returned actions
    /// are, in order: the bar swap when and only when the mode changed; the
    /// label update with the selection summary; and, when the track was
    /// selected, the slider update showing its volume.
    pub fn handle_selection_changed(
        &mut self,
        track: TrackId,
        is_selected: bool,
        reported_count: u32,
        current_volume: i64,
    ) -> (actions: Vec<UiAction>)
        requires
            old(self).wf(),
        ensures
            final(self).wf(),
            final(self).config_spec() == old(self).config_spec(),
            final(self)@ == engine_step(
                old(self)@,
                SelectionEvent { track, is_selected, reported_count },
            ),
            ({
                let new_model = engine_step(
                    old(self)@,
                    SelectionEvent { track, is_selected, reported_count },
                );
                let swapped = new_model.mode != old(self)@.mode;
                let base: int = if swapped {
                    1
                } else {
                    0
                };
                &&& actions@.len() == base + 1 + (if is_selected {
                    1int
                } else {
                    0int
                })
                &&& (swapped ==> (actions@[0] matches UiAction::SetBarContents { bar, items }
                    && bar == old(self).config_spec().bar && items@ == elements_for(
                    old(self).config_spec(),
                    new_model.mode,
                )))
                &&& (actions@[base] matches UiAction::UpdateLabel { label, text }
                    && label == old(self).config_spec().label && text@ == label_text_spec(
                    tracker_display_count(new_model.tracker),
                ))
                &&& (is_selected ==> (actions@[base + 1] matches UiAction::UpdateSlider {
                    slider,
                    volume,
                } && slider == old(self).config_spec().volume_slider && volume == current_volume))
            }),
    {
        let e = SelectionEvent { track, is_selected, reported_count };
        self.tracker.on_selection_event(e);
        let mut actions: Vec<UiAction> = Vec::new();
        let has = self.tracker.has_selection();
        let new_mode = if has {
            Mode::Track
        } else {
            Mode::Normal
        };
        let swap = self.controller.transition_if_needed(new_mode);
        if swap {
            let items = if has {
                clone_widgets(&self.config.track_elements)
            } else {
                clone_widgets(&self.config.normal_elements)
            };
            actions.push(UiAction::SetBarContents { bar: self.config.bar, items });
        }
        let count = self.tracker.display_count();
        actions.push(UiAction::UpdateLabel { label: self.config.label, text: label_text(count) });
        if is_selected {
            actions.push(
                UiAction::UpdateSlider {
                    slider: self.config.volume_slider,
                    volume: current_volume,
                },
            );
        }
        actions
    }

    /// Handles a volume-change notification. `is_track_selected` is the
    /// host's answer to whether the track is currently selected: volume
    /// automation on unselected tracks must not touch the UI, so when it is
    /// `false` nothing changes and no action is returned. Otherwise the
    /// track becomes the addressable target and the slider follows the new
    /// volume.
    pub fn handle_volume_changed(&mut self, track: TrackId, is_track_selected: bool, volume: i64) -> (actions: Vec<UiAction>)
        requires
            old(self).wf(),
        ensures
            final(self).wf(),
            final(self).config_spec() == old(self).config_spec(),
            final(self)@.mode == old(self)@.mode,
            final(self)@.tracker.policy == old(self)@.tracker.policy,
            final(self)@.tracker.selected == old(self)@.tracker.selected,
            final(self)@.tracker.reported_count == old(self)@.tracker.reported_count,
            !is_track_selected ==> final(self)@ == old(self)@ && actions@.len() == 0,
            is_track_selected ==> (final(self)@.tracker.last_selected == Some(track)
                && actions@.len() == 1 && (actions@[0] matches UiAction::UpdateSlider {
                slider,
                volume: v,
            } && slider == old(self).config_spec().volume_slider && v == volume)),
    {
        let mut actions: Vec<UiAction> = Vec::new();
        if !is_track_selected {
            return actions;
        }
        self.tracker.remember_target(track);
        actions.push(
            UiAction::UpdateSlider { slider: self.config.volume_slider, volume },
        );
        actions
    }

    /// Handles a command-invocation notification. The hook is an
    /// observation-only tap: it never suppresses the host's default action,
    /// so it always answers "not handled".
    pub fn handle_command_invoked(&self, _command_id: u32) -> (handled: bool)
        ensures
            handled == false,
    {
        false
    }

    /// The mode the bar currently shows.
    pub fn current_mode(&self) -> (r: Mode)
        ensures
            r == self@.mode,
    {
        self.controller.current
    }

    /// The single addressable target for a volume write: the most recently
    /// selected (and still remembered) track.
    pub fn volume_target(&self) -> (r: Option<TrackId>)
        ensures
            r == self@.tracker.last_selected,
    {
        self.tracker.primary_target()
    }

    /// Every currently tracked target, for mute and solo dispatch.
    pub fn targets(&self) -> (r: Vec<TrackId>)
        requires
            self.wf(),
        ensures
            r@.no_duplicates(),
            r@.to_set() == self.tracker_targets(),
    {
        self.tracker.targets()
    }

    /// The set [`Self::targets`] yields.
    pub closed spec fn tracker_targets(self) -> Set<TrackId> {
        self.tracker.target_set()
    }

}

/// A fresh copy of a widget-handle list.
fn clone_widgets(v: &Vec<WidgetId>) -> (r: Vec<WidgetId>)
    ensures
        r@ == v@,
{
    let r = v.clone();
    proof {
        assert(r@ =~= v@);
    }
    r
}

} // verus!
