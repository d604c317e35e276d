use vstd::prelude::*;

verus! {

/// Which panel is open.
#[derive(Clone, Copy, Debug, PartialEq, Eq, Structural, Hash)]
pub enum UiState {
    Inventory,
    Market,
    Construct,
    Upgrade,
    /// No panel is open.
    Closed,
}

} // verus!
