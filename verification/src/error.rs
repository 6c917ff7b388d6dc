use vstd::prelude::*;

verus! {

/// Errors raised while validating caller input, before any request is
/// issued.  Failures of the outside collaborators (network, storage)
/// are handled by their callers and never reach these variants.
#[derive(Clone, Copy, Debug, PartialEq, Eq, Structural)]
pub enum Error {
    /// A latitude lay outside the representable range.
    InvalidLatitudeRange,
    /// A longitude lay outside the representable range.
    InvalidLongitudeRange,
    /// A region's corners coincide on some axis, so it encloses no area.
    DegenerateRegion,
}

} // verus!
