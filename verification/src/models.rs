use vstd::prelude::*;

verus! {

/// One category row as the store takes it: the surrogate identifier
/// of the entity the row belongs to, and one canonical category label.
#[derive(Clone, Debug)]
pub struct Category {
    pub restaurant_id: String,
    pub categories: String,
}

} // verus!
