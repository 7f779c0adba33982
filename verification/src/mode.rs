//! The two-state mode machine that decides which widget set the root bar
//! shows.

use vstd::prelude::*;

verus! {

/// Which widget set the control strip shows: generic controls while no
/// track is selected, track controls while one or more are.
#[derive(Clone, Copy, PartialEq, Eq, Structural, Debug)]
pub enum Mode {
    /// No track selected: the bar shows the generic widget set.
    Normal,
    /// At least one track selected: the bar shows the track widget set.
    Track,
}

/// The mode implied by the selection state: `Track` exactly when there is a
/// selection. The mode is always recomputed from this rule, never patched
/// incrementally.
pub open spec fn mode_for(has_selection: bool) -> Mode {
    if has_selection {
        Mode::Track
    } else {
        Mode::Normal
    }
}

/// What one call of [`ModeController::transition_if_needed`] does: the new
/// current mode, and whether a bar-contents swap must be issued.
pub open spec fn transition_step(current: Mode, new_mode: Mode) -> (Mode, bool) {
    (new_mode, current != new_mode)
}

/// Owns the current mode and decides, on each recomputation, whether the
/// bar's contents must be swapped. It never asks for a swap when the mode is
/// unchanged, so repeated events with the same selection state cause no
/// redundant (flickering) bar updates.
pub struct ModeController {
    /// The mode the bar currently shows.
    pub current: Mode,
}

impl ModeController {
    /// A fresh controller; the strip starts out showing the generic set.
    pub fn new() -> (r: Self)
        ensures
            r.current == Mode::Normal,
    {
        ModeController { current: Mode::Normal }
    }

    /// Adopts `new_mode` and reports whether the caller must swap the bar's
    /// contents: `true` exactly when the mode actually changed.
    pub fn transition_if_needed(&mut self, new_mode: Mode) -> (swap: bool)
        ensures
            (final(self).current, swap) == transition_step(old(self).current, new_mode),
            final(self).current == new_mode,
            swap == (old(self).current != new_mode),
    {
        if self.current == new_mode {
            false
        } else {
            self.current = new_mode;
            true
        }
    }
}

/// Transitioning twice to the same mode swaps the bar at most once: the
/// second call never asks for a swap, whatever mode the controller started
/// in.
pub proof fn lemma_transition_idempotent(start: Mode, new_mode: Mode)
    ensures
        ({
            let (after_first, _) = transition_step(start, new_mode);
            let (after_second, second_swap) = transition_step(after_first, new_mode);
            after_second == new_mode && second_swap == false
        }),
{
}

} // verus!
