use vstd::prelude::*;

use crate::geo::{lemma_split_shrinks, lemma_split_tiles, BoundingBox};

verus! {

/// One entity as the (ghost) ground truth of the search service holds
/// it: a stable identifier and an exact point location, in the same
/// microdegree grid the regions use.
pub ghost struct GroundRecord {
    pub id: Seq<char>,
    pub x: int,
    pub y: int,
}

/// The entities of the ground set that a region's query matches: those
/// whose location the region contains.
pub open spec fn region_matches(ground: Set<GroundRecord>, b: BoundingBox) -> Set<GroundRecord> {
    ground.filter(|g: GroundRecord| b.contains_point(g.x, g.y))
}

/// A stable, deterministic remote is modeled by the ground set
/// together with a per-query retrieval cap `cap` (what the service
/// reports as its retrievable count).  A region is saturated exactly
/// when the cap falls below the region's true match count — the
/// model-level reading of [`crate::dto::saturated`].
pub open spec fn model_saturated(
    ground: Set<GroundRecord>,
    cap: spec_fn(BoundingBox) -> nat,
    b: BoundingBox,
) -> bool {
    cap(b) < region_matches(ground, b).len()
}

/// What a full traversal of one region gathers from such a remote,
/// mirroring the engine's decision at each probe: a saturated region
/// contributes what its two halves contribute (nothing when it is too
/// small to bisect — the termination safeguard); a region within its
/// cap contributes exactly its matches, which is what paging it to the
/// end returns.
pub open spec fn enumeration_result(
    ground: Set<GroundRecord>,
    cap: spec_fn(BoundingBox) -> nat,
    b: BoundingBox,
) -> Set<GroundRecord>
    decreases b.area(),
    when b.wf()
{
    if model_saturated(ground, cap, b) {
        if b.splittable() {
            proof {
                lemma_split_shrinks(b);
            }
            enumeration_result(ground, cap, b.split_spec().0) + enumeration_result(
                ground,
                cap,
                b.split_spec().1,
            )
        } else {
            Set::empty()
        }
    } else {
        region_matches(ground, b)
    }
}

/// Whether subdividing eventually resolves every saturated region a
/// traversal of `b` meets: no saturated region in the subdivision tree
/// is too small to bisect.  This is the termination-safeguard-free
/// case; where it fails, matches of the unsplittable region are lost.
pub open spec fn fully_enumerable(
    ground: Set<GroundRecord>,
    cap: spec_fn(BoundingBox) -> nat,
    b: BoundingBox,
) -> bool
    decreases b.area(),
    when b.wf()
{
    if model_saturated(ground, cap, b) {
        &&& b.splittable()
        &&& {
            proof {
                lemma_split_shrinks(b);
            }
            fully_enumerable(ground, cap, b.split_spec().0) && fully_enumerable(
                ground,
                cap,
                b.split_spec().1,
            )
        }
    } else {
        true
    }
}

/// Bisection splits a region's matches exactly: the halves' matches
/// are disjoint and together are the whole's.
pub proof fn lemma_matches_split(ground: Set<GroundRecord>, b: BoundingBox)
    requires
        b.wf(),
        b.splittable(),
    ensures
        region_matches(ground, b) == region_matches(ground, b.split_spec().0) + region_matches(
            ground,
            b.split_spec().1,
        ),
        region_matches(ground, b.split_spec().0).disjoint(
            region_matches(ground, b.split_spec().1),
        ),
{
    let h1 = b.split_spec().0;
    let h2 = b.split_spec().1;
    assert forall|g: GroundRecord|
        region_matches(ground, b).contains(g) == (region_matches(ground, h1) + region_matches(
            ground,
            h2,
        )).contains(g) by {
        lemma_split_tiles(b, g.x, g.y);
    }
    assert(region_matches(ground, b) =~= region_matches(ground, h1) + region_matches(ground, h2));
    assert forall|g: GroundRecord| region_matches(ground, h1).contains(g) implies !region_matches(
        ground,
        h2,
    ).contains(g) by {
        lemma_split_tiles(b, g.x, g.y);
    }
}

/// Completeness: when every saturated region in the subdivision tree
/// can still be bisected, the traversal gathers exactly the matches of
/// the original region — every match retrieved, none invented.
pub proof fn lemma_enumeration_complete(
    ground: Set<GroundRecord>,
    cap: spec_fn(BoundingBox) -> nat,
    b: BoundingBox,
)
    requires
        b.wf(),
        fully_enumerable(ground, cap, b),
    ensures
        enumeration_result(ground, cap, b) == region_matches(ground, b),
    decreases b.area(),
{
    if model_saturated(ground, cap, b) {
        lemma_split_shrinks(b);
        lemma_enumeration_complete(ground, cap, b.split_spec().0);
        lemma_enumeration_complete(ground, cap, b.split_spec().1);
        lemma_matches_split(ground, b);
    }
}

/// Split correctness: enumerating the two halves of a region
/// independently and merging the outcomes yields exactly what
/// enumerating the region itself yields, over a stable, deterministic
/// remote from which each half can be fully enumerated.
pub proof fn lemma_split_independence(
    ground: Set<GroundRecord>,
    cap: spec_fn(BoundingBox) -> nat,
    b: BoundingBox,
)
    requires
        b.wf(),
        b.splittable(),
        fully_enumerable(ground, cap, b.split_spec().0),
        fully_enumerable(ground, cap, b.split_spec().1),
    ensures
        enumeration_result(ground, cap, b.split_spec().0) + enumeration_result(
            ground,
            cap,
            b.split_spec().1,
        ) == enumeration_result(ground, cap, b),
{
    lemma_split_shrinks(b);
    lemma_enumeration_complete(ground, cap, b.split_spec().0);
    lemma_enumeration_complete(ground, cap, b.split_spec().1);
    lemma_matches_split(ground, b);
    if !model_saturated(ground, cap, b) {
        assert(enumeration_result(ground, cap, b) == region_matches(ground, b));
    }
}

} // verus!
