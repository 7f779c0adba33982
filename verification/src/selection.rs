//! Stable-identity tracking of the currently selected tracks.
//!
//! Two strategies exist for the same job and are chosen at construction
//! time. The set-based strategy keeps every track the host has reported as
//! selected and drops it again on deselection; the size of that set is the
//! source of truth for the mode. The single-slot strategy remembers only the
//! most recently selected track and leans on the host's own selected-track
//! count for the mode, since "last known" does not imply "still selected".
//! Under both strategies the tracker may hold identifiers of tracks deleted
//! after selection; consumers resolve each identifier on use and treat a
//! failed resolution as "not found".

use vstd::prelude::*;
use crate::ids::TrackId;

verus! {

broadcast use vstd::set::group_set_axioms;

/// Which selection-tracking strategy a tracker uses.
#[derive(Clone, Copy, PartialEq, Eq, Structural, Debug)]
pub enum SelectionPolicy {
    /// Remember only the most recently selected track; the host's reported
    /// selected-track count decides the mode.
    SingleSlot,
    /// Keep the full set of selected tracks; its size decides the mode.
    SetBased,
}

/// One selection-change notification, together with the host-query result
/// the handlers need: the host's selected-track count after the change.
#[derive(Clone, Copy, PartialEq, Eq, Structural, Debug)]
pub struct SelectionEvent {
    /// The track whose selection state changed.
    pub track: TrackId,
    /// Whether the track is now selected.
    pub is_selected: bool,
    /// The host's total count of selected tracks after this change.
    pub reported_count: u32,
}

/// The mathematical model of a tracker: the remembered slot, the selection
/// set, and the last reported count.
#[verifier::ext_equal]
pub ghost struct TrackerModel {
    /// The strategy the tracker was built with.
    pub policy: SelectionPolicy,
    /// The most recently selected track, if any selection was ever reported.
    pub last_selected: Option<TrackId>,
    /// The tracks currently recorded as selected.
    pub selected: Set<TrackId>,
    /// The host's selected-track count as of the last selection event.
    pub reported_count: nat,
}

/// How one selection event changes a tracker: a selection overwrites the
/// slot and joins the set, a deselection leaves the slot alone and leaves
/// the set; the reported count is always adopted.
pub open spec fn tracker_step(m: TrackerModel, e: SelectionEvent) -> TrackerModel {
    TrackerModel {
        policy: m.policy,
        last_selected: if e.is_selected {
            Some(e.track)
        } else {
            m.last_selected
        },
        selected: if e.is_selected {
            m.selected.insert(e.track)
        } else {
            m.selected.remove(e.track)
        },
        reported_count: e.reported_count as nat,
    }
}

/// Whether the tracker's state counts as "has a selection", which is what
/// the mode is derived from: set non-empty under the set-based strategy,
/// reported count nonzero under the single-slot strategy.
pub open spec fn tracker_has_selection(m: TrackerModel) -> bool {
    match m.policy {
        SelectionPolicy::SetBased => m.selected.len() != 0,
        SelectionPolicy::SingleSlot => m.reported_count != 0,
    }
}

/// The track count the label shows: the set's size under the set-based
/// strategy, the host's reported count under the single-slot strategy.
pub open spec fn tracker_display_count(m: TrackerModel) -> nat {
    match m.policy {
        SelectionPolicy::SetBased => m.selected.len(),
        SelectionPolicy::SingleSlot => m.reported_count,
    }
}

/// Owns the selection state and updates it on each selection notification.
pub struct SelectionTracker {
    policy: SelectionPolicy,
    last_selected: Option<TrackId>,
    selected: Vec<TrackId>,
    reported_count: u32,
}

impl View for SelectionTracker {
    type V = TrackerModel;

    closed spec fn view(&self) -> TrackerModel {
        TrackerModel {
            policy: self.policy,
            last_selected: self.last_selected,
            selected: self.selected@.to_set(),
            reported_count: self.reported_count as nat,
        }
    }
}

/// The first position of `id` in `v`, if it occurs.
fn position_of(v: &Vec<TrackId>, id: TrackId) -> (r: Option<usize>)
    ensures
        match r {
            Some(i) => i < v@.len() && v@[i as int] == id,
            None => !v@.contains(id),
        },
{
    let mut i: usize = 0;
    while i < v.len()
        invariant
            i <= v@.len(),
            forall|j: int| 0 <= j < i ==> v@[j] != id,
        decreases v@.len() - i,
    {
        if v[i] == id {
            return Some(i);
        }
        i = i + 1;
    }
    None
}

impl SelectionTracker {
    /// The internal representation keeps each selected track once.
    pub closed spec fn wf(self) -> bool {
        self.selected@.no_duplicates()
    }

    /// A fresh tracker: no track recorded as selected, count zero, and the
    /// slot preloaded with whatever the host said was selected at startup.
    pub fn new(policy: SelectionPolicy, initial_last: Option<TrackId>) -> (r: Self)
        ensures
            r.wf(),
            r@.policy == policy,
            r@.last_selected == initial_last,
            r@.selected == Set::<TrackId>::empty(),
            r@.reported_count == 0,
    {
        let r = SelectionTracker {
            policy,
            last_selected: initial_last,
            selected: Vec::new(),
            reported_count: 0,
        };
        proof {
            broadcast use vstd::set::group_set_axioms;

            assert(r.selected@.to_set() =~= Set::<TrackId>::empty());
        }
        r
    }

    /// Applies one selection notification, exactly as [`tracker_step`]
    /// describes.
    pub fn on_selection_event(&mut self, e: SelectionEvent)
        requires
            old(self).wf(),
        ensures
            final(self).wf(),
            final(self)@ == tracker_step(old(self)@, e),
    {
        proof {
            broadcast use vstd::set::group_set_axioms;

        }
        if e.is_selected {
            self.last_selected = Some(e.track);
            match position_of(&self.selected, e.track) {
                Some(_) => {
                    proof {
                        assert(self.selected@.to_set() =~= self.selected@.to_set().insert(
                            e.track,
                        ));
                    }
                },
                None => {
                    let ghost before = self.selected@;
                    self.selected.push(e.track);
                    proof {
                        let after = self.selected@;
                        assert forall|x: TrackId| after.contains(x) implies (before.contains(x)
                            || x == e.track) by {
                            let j = choose|j: int| 0 <= j < after.len() && after[j] == x;
                            if j < before.len() {
                                assert(before[j] == x);
                            }
                        }
                        assert forall|x: TrackId| before.contains(x) implies after.contains(
                            x,
                        ) by {
                            let j = choose|j: int| 0 <= j < before.len() && before[j] == x;
                            assert(after[j] == x);
                        }
                        assert(after[before.len() as int] == e.track);
                        assert(after.contains(e.track));
                        assert(self.selected@.to_set() =~= before.to_set().insert(e.track));
                        assert forall|i: int, j: int|
                            0 <= i < self.selected@.len() && 0 <= j < self.selected@.len() && i
                                != j implies self.selected@[i] != self.selected@[j] by {
                            if i < before.len() && j < before.len() {
                                assert(before[i] != before[j]);
                            } else {
                                assert(!before.contains(e.track));
                            }
                        }
                    }
                },
            }
        } else {
            match position_of(&self.selected, e.track) {
                Some(i) => {
                    let ghost before = self.selected@;
                    self.selected.remove(i);
                    proof {
                        Self::lemma_remove_from_unique(before, i as int, e.track);
                    }
                },
                None => {
                    proof {
                        assert(self.selected@.to_set() =~= self.selected@.to_set().remove(
                            e.track,
                        ));
                    }
                },
            }
        }
        self.reported_count = e.reported_count;
        proof {
            assert(self@ =~= tracker_step(old(self)@, e));
        }
    }

    /// Removing position `i` from a duplicate-free sequence removes exactly
    /// the element that stood there, and keeps the sequence duplicate-free.
    proof fn lemma_remove_from_unique(s: Seq<TrackId>, i: int, id: TrackId)
        requires
            s.no_duplicates(),
            0 <= i < s.len(),
            s[i] == id,
        ensures
            s.remove(i).no_duplicates(),
            s.remove(i).to_set() =~= s.to_set().remove(id),
    {
        broadcast use vstd::set::group_set_axioms;

        let t = s.remove(i);
        assert forall|x: TrackId| t.to_set().contains(x) implies s.to_set().remove(id).contains(
            x,
        ) by {
            let j = choose|j: int| 0 <= j < t.len() && t[j] == x;
            if j < i {
                assert(s[j] == x);
            } else {
                assert(s[j + 1] == x);
            }
        }
        assert forall|x: TrackId| s.to_set().remove(id).contains(x) implies t.to_set().contains(
            x,
        ) by {
            let j = choose|j: int| 0 <= j < s.len() && s[j] == x;
            if j < i {
                assert(t[j] == x);
            } else {
                assert(j != i);
                assert(t[j - 1] == x);
            }
        }
    }

    /// The strategy this tracker was built with.
    pub fn policy(&self) -> (r: SelectionPolicy)
        ensures
            r == self@.policy,
    {
        self.policy
    }

    /// Whether the overall state counts as "has a selection".
    pub fn has_selection(&self) -> (r: bool)
        requires
            self.wf(),
        ensures
            r == tracker_has_selection(self@),
    {
        match self.policy {
            SelectionPolicy::SetBased => {
                proof {
                    self.selected@.lemma_cardinality_of_empty_set_is_0();
                }
                self.selected.len() != 0
            },
            SelectionPolicy::SingleSlot => self.reported_count != 0,
        }
    }

    /// The track count the label shows.
    pub fn display_count(&self) -> (r: usize)
        requires
            self.wf(),
        ensures
            r == tracker_display_count(self@),
    {
        match self.policy {
            SelectionPolicy::SetBased => {
                proof {
                    self.selected@.unique_seq_to_set();
                }
                self.selected.len()
            },
            SelectionPolicy::SingleSlot => self.reported_count as usize,
        }
    }

    /// Every currently tracked target, freshly materialized: all recorded
    /// tracks under the set-based strategy, the zero-or-one remembered track
    /// under the single-slot strategy. Safe to call when empty.
    pub fn targets(&self) -> (r: Vec<TrackId>)
        requires
            self.wf(),
        ensures
            r@.no_duplicates(),
            r@.to_set() == self.target_set(),
    {
        proof {
            broadcast use vstd::set::group_set_axioms;

        }
        match self.policy {
            SelectionPolicy::SetBased => {
                let r = self.selected.clone();
                proof {
                    assert(r@ =~= self.selected@);
                    assert(r@.to_set() =~= self.target_set());
                }
                r
            },
            SelectionPolicy::SingleSlot => {
                let mut r: Vec<TrackId> = Vec::new();
                match self.last_selected {
                    Some(id) => {
                        r.push(id);
                        proof {
                            assert(r@.len() == 1 && r@[0] == id);
                            assert forall|x: TrackId| r@.contains(x) implies x == id by {
                                let j = choose|j: int| 0 <= j < r@.len() && r@[j] == x;
                            }
                            assert(r@.contains(id));
                            assert(r@.to_set() =~= self.target_set());
                        }
                    },
                    None => {
                        proof {
                            assert(r@.to_set() =~= self.target_set());
                        }
                    },
                }
                r
            },
        }
    }

    /// The set [`Self::targets`] yields: the recorded selection set, or the
    /// remembered slot as a set of at most one.
    pub open spec fn target_set(self) -> Set<TrackId> {
        match self@.policy {
            SelectionPolicy::SetBased => self@.selected,
            SelectionPolicy::SingleSlot => match self@.last_selected {
                Some(id) => Set::<TrackId>::empty().insert(id),
                None => Set::<TrackId>::empty(),
            },
        }
    }

    /// The single addressable target for a volume write: the most recently
    /// selected (and still remembered) track.
    pub fn primary_target(&self) -> (r: Option<TrackId>)
        ensures
            r == self@.last_selected,
    {
        self.last_selected
    }

    /// Overwrites the remembered slot with `track`, leaving the selection
    /// set and the reported count alone. Used when a volume change arrives
    /// for a track the host confirms as selected: that track becomes the
    /// addressable target without counting as a new selection event.
    pub fn remember_target(&mut self, track: TrackId)
        requires
            old(self).wf(),
        ensures
            final(self).wf(),
            final(self)@ == (TrackerModel { last_selected: Some(track), ..old(self)@ }),
    {
        self.last_selected = Some(track);
        proof {
            assert(self@ =~= (TrackerModel { last_selected: Some(track), ..old(self)@ }));
        }
    }
}

} // verus!
