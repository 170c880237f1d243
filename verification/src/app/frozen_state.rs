//! Freezing and thawing the data source the view reads.
use vstd::prelude::*;
use crate::app::data_farmer::DataCollection;

verus! {

/// Whether rendering reads the live collection or an owned copy taken at
/// the freeze instant. While frozen, live collection continues at full
/// rate; only which copy the view reads changes, and the copy is discarded
/// on thaw.
pub enum FrozenState {
    NotFrozen,
    Frozen(DataCollection),
}

impl FrozenState {
    /// Whether a frozen copy is currently held.
    pub open spec fn is_frozen(self) -> bool {
        self is Frozen
    }

    /// The toggle transition: freezing captures the collection live at that
    /// instant, thawing discards the copy.
    pub open spec fn toggle_spec(self, live: DataCollection) -> FrozenState {
        match self {
            FrozenState::NotFrozen => FrozenState::Frozen(live),
            FrozenState::Frozen(_) => FrozenState::NotFrozen,
        }
    }

    /// Law: toggling freeze twice restores the original occupancy (live vs
    /// frozen), whatever was live at the two instants; the copy held in
    /// between reflects the first of the two instants.
    pub proof fn lemma_toggle_twice_restores_occupancy(
        self,
        live_first: DataCollection,
        live_second: DataCollection,
    )
        ensures
            self.toggle_spec(live_first).toggle_spec(live_second).is_frozen() == self.is_frozen(),
            self is NotFrozen ==> self.toggle_spec(live_first) == FrozenState::Frozen(live_first),
    {
    }

    /// Flips between live and frozen: freezing deep-copies `live` at this
    /// instant, thawing discards the held copy.
    pub fn toggle(&mut self, live: &DataCollection)
        ensures
            final(self).is_frozen() == !old(self).is_frozen(),
            final(self).is_frozen() == old(self).toggle_spec(*live).is_frozen(),
            *old(self) is NotFrozen ==> (*final(self) matches FrozenState::Frozen(copy)
                && copy.data@ == live.data@
                && copy.current_time == live.current_time),
    {
        match self {
            FrozenState::NotFrozen => {
                *self = FrozenState::Frozen(live.deep_copy());
            }
            FrozenState::Frozen(_) => {
                *self = FrozenState::NotFrozen;
            }
        }
    }
}

} // verus!
