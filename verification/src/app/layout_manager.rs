//! What the layout collaborator hands the core at construction.
use vstd::prelude::*;
use crate::app::UsedWidgets;

verus! {

/// The part of the resolved layout that the core consumes once at
/// construction: which widget categories the layout enables, and which
/// widget is selected at startup. The layout tree itself stays with the
/// layout and rendering collaborators.
pub struct LayoutCreationOutput {
    /// The widget categories the resolved layout enables.
    pub used_widgets: UsedWidgets,
    /// The identifier of the initially selected widget; read by the view
    /// collaborators, not stored by the reducer.
    pub selected: u64,
}

} // verus!
