use vstd::prelude::*;

use crate::dto::{saturated, Category, Document, PageQuery, ResponseBody};
use crate::geo::BoundingBox;
use crate::resultset::{spec_insert_all, ResultSet};

verus! {

/// Mid-region pagination state: the region being paged through, the
/// next page to request (always at least 2; page 1 was the probe) and
/// how many records the reported cap still owes — at least one, since
/// a page not flagged as the last always owes a closing page.
#[derive(Clone, Copy, Debug, PartialEq, Eq, Structural)]
pub struct Paging {
    pub region: BoundingBox,
    pub next_page: usize,
    pub remaining: usize,
}

/// The bounded-region enumeration engine.
///
/// It drives a depth-first traversal over a stack of pending regions.
/// For each region it asks for page 1 first.  When the metadata shows
/// the region saturated (the cap below the true match count), the
/// region is bisected and its halves take its place on the stack, and
/// the probe page's records are discarded.  Otherwise the records are
/// accepted and the later pages are fetched one by one, until a page
/// arrives flagged as the last or the retrievable count is exhausted;
/// a probe not flagged as last is owed a page even when its records
/// already cover the whole retrievable count.
///
/// The engine never performs a request itself: the driver asks
/// [`RegionEnumerator::next_query`] what to fetch, performs the fetch,
/// and reports the outcome through [`RegionEnumerator::on_page`] or
/// [`RegionEnumerator::on_failure`].  Enumeration is complete when
/// [`RegionEnumerator::is_done`] holds.
///
/// Failure policy: a failed probe abandons its whole region; a failure
/// on a later page only truncates that region's tail, keeping what was
/// already accepted.  A saturated region too small to bisect (both
/// spans below two microdegrees) is abandoned rather than subdivided
/// forever; that floor is this implementation's termination safeguard.
pub struct RegionEnumerator {
    pub category: Category,
    pub page_size: usize,
    pub stack: Vec<BoundingBox>,
    pub results: ResultSet,
    pub paging: Option<Paging>,
}

impl RegionEnumerator {
    /// Every pending region is valid, the results are deduplicated,
    /// and mid-region state is consistent: pages from 2 on, at least
    /// one more page owed.
    pub open spec fn wf(self) -> bool {
        &&& self.page_size >= 1
        &&& self.results.wf()
        &&& forall|i: int| 0 <= i < self.stack@.len() ==> (#[trigger] self.stack@[i]).wf()
        &&& match self.paging {
            Some(p) => {
                &&& p.region.wf()
                &&& p.next_page >= 2
                &&& p.remaining >= 1
            },
            None => true,
        }
    }

    /// Nothing pending and nothing mid-region: the traversal is over.
    pub open spec fn spec_done(self) -> bool {
        self.paging is None && self.stack@.len() == 0
    }

    /// The next outcome will answer a probe: page 1 of the region on
    /// top of the stack.
    pub open spec fn probing(self) -> bool {
        self.paging is None
    }

    /// The region the pending probe concerns.
    pub open spec fn probe_region(self) -> BoundingBox {
        self.stack@.last()
    }

    /// Whether, after this page, the engine stays in the same region
    /// for another page.  The service's end-of-results flag governs:
    /// an accepted region is paged until a page arrives flagged as the
    /// last, or until the retrievable count is exhausted.  An accepted
    /// probe whose page is not flagged is always owed one further
    /// page, even when its records already cover the whole retrievable
    /// count: the service then closes the region with a final flagged
    /// page.  A region with nothing retrievable is never paged beyond
    /// its probe.  A page counter at the machine's limit also ends its
    /// region, so that the counter can never overflow; no real service
    /// paginates that far.
    pub open spec fn continues_region(self, body: ResponseBody) -> bool {
        if self.probing() {
            &&& !saturated(body.meta)
            &&& body.meta.pageable_count > 0
            &&& !body.meta.is_end
        } else {
            &&& self.paging->Some_0.remaining > self.page_size
            &&& !body.meta.is_end
            &&& self.paging->Some_0.next_page < usize::MAX
        }
    }

    /// The pending regions after a successful page: a probe pops its
    /// region, and a saturated region leaves its two halves behind
    /// (none when it is too small to bisect); later pages leave the
    /// stack alone.
    pub open spec fn stack_after_page(self, body: ResponseBody) -> Seq<BoundingBox> {
        if self.probing() {
            let rest = self.stack@.drop_last();
            if saturated(body.meta) && self.probe_region().splittable() {
                rest.push(self.probe_region().split_spec().0).push(
                    self.probe_region().split_spec().1,
                )
            } else {
                rest
            }
        } else {
            self.stack@
        }
    }

    /// The results after a successful page: unchanged for a saturated
    /// probe (those records will be re-fetched from the halves),
    /// otherwise every record of the page inserted in order, with
    /// duplicates by identifier discarded.
    pub open spec fn results_after_page(self, body: ResponseBody) -> Seq<Document> {
        if self.probing() && saturated(body.meta) {
            self.results@
        } else {
            spec_insert_all(self.results@, body.documents@)
        }
    }

    /// The mid-region state after a successful page: an accepted probe
    /// not yet flagged as last starts pagination at page 2, owing what
    /// the cap still promises beyond page 1 (one closing page at the
    /// least); a later page advances one page and discounts one page
    /// size from what is owed; anything else leaves the region.
    pub open spec fn paging_after_page(self, body: ResponseBody) -> Option<Paging> {
        if !self.continues_region(body) {
            None
        } else if self.probing() {
            Some(
                (Paging {
                    region: self.probe_region(),
                    next_page: 2,
                    remaining: if body.meta.pageable_count > body.documents@.len() {
                        (body.meta.pageable_count - body.documents@.len()) as usize
                    } else {
                        1
                    },
                }),
            )
        } else {
            let p = self.paging->Some_0;
            Some(
                (Paging {
                    region: p.region,
                    next_page: (p.next_page + 1) as usize,
                    remaining: (p.remaining - self.page_size) as usize,
                }),
            )
        }
    }

    /// Seeds the traversal with the initial region; nothing has been
    /// requested yet.
    pub fn new(region: BoundingBox, category: Category, page_size: usize) -> (r: RegionEnumerator)
        requires
            region.wf(),
            page_size >= 1,
        ensures
            r.wf(),
            r.category == category,
            r.page_size == page_size,
            r.stack@ == seq![region],
            r.results@ == Seq::<Document>::empty(),
            r.paging is None,
    {
        let mut stack = Vec::new();
        stack.push(region);
        RegionEnumerator {
            category,
            page_size,
            stack,
            results: ResultSet::new(),
            paging: None,
        }
    }

    /// Whether the traversal is over.
    pub fn is_done(&self) -> (r: bool)
        ensures
            r == self.spec_done(),
    {
        self.paging.is_none() && self.stack.len() == 0
    }

    /// What to fetch next: the next page of the region being paged
    /// through, else page 1 of the top pending region, else nothing.
    pub fn next_query(&self) -> (q: Option<PageQuery>)
        requires
            self.wf(),
        ensures
            match self.paging {
                Some(p) => q == Some(
                    (PageQuery {
                        category: self.category,
                        region: p.region,
                        page: p.next_page,
                        size: self.page_size,
                    }),
                ),
                None => if self.stack@.len() > 0 {
                    q == Some(
                        (PageQuery {
                            category: self.category,
                            region: self.probe_region(),
                            page: 1,
                            size: self.page_size,
                        }),
                    )
                } else {
                    q is None
                },
            },
    {
        match self.paging {
            Some(p) => Some(
                PageQuery {
                    category: self.category,
                    region: p.region,
                    page: p.next_page,
                    size: self.page_size,
                },
            ),
            None => {
                if self.stack.len() > 0 {
                    Some(
                        PageQuery {
                            category: self.category,
                            region: self.stack[self.stack.len() - 1],
                            page: 1,
                            size: self.page_size,
                        },
                    )
                } else {
                    None
                }
            },
        }
    }

    /// Accepts the successful outcome of the query
    /// [`RegionEnumerator::next_query`] asked for.
    pub fn on_page(&mut self, body: ResponseBody)
        requires
            old(self).wf(),
            !old(self).spec_done(),
        ensures
            final(self).wf(),
            final(self).category == old(self).category,
            final(self).page_size == old(self).page_size,
            final(self).stack@ == old(self).stack_after_page(body),
            final(self).results@ == old(self).results_after_page(body),
            final(self).paging == old(self).paging_after_page(body),
    {
        match self.paging {
            None => {
                let region = match self.stack.pop() {
                    Some(r) => r,
                    None => {
                        proof {
                            assert(false);
                        }
                        unreached()
                    },
                };
                if body.meta.pageable_count < body.meta.total_count {
                    // Saturated: discard the probe's records; bisect if
                    // the region still can be, abandon it otherwise.
                    let w = region.ne.x - region.sw.x;
                    let h = region.ne.y - region.sw.y;
                    if w >= 2 || h >= 2 {
                        let (first, second) = region.split();
                        self.stack.push(first);
                        self.stack.push(second);
                    }
                } else {
                    let got = body.documents.len();
                    let meta = body.meta;
                    self.results.insert_all(body.documents);
                    if meta.pageable_count > 0 && !meta.is_end {
                        let remaining = if meta.pageable_count > got {
                            meta.pageable_count - got
                        } else {
                            1
                        };
                        self.paging = Some(Paging { region, next_page: 2, remaining });
                    }
                }
            },
            Some(p) => {
                let meta = body.meta;
                self.results.insert_all(body.documents);
                if p.remaining > self.page_size && !meta.is_end && p.next_page < usize::MAX {
                    self.paging = Some(
                        Paging {
                            region: p.region,
                            next_page: p.next_page + 1,
                            remaining: p.remaining - self.page_size,
                        },
                    );
                } else {
                    self.paging = None;
                }
            },
        }
    }

    /// Accepts a failed fetch.  A failed probe abandons its region
    /// wholesale; a failure while paging keeps what that region has
    /// already contributed and moves on.  Results are never touched.
    pub fn on_failure(&mut self)
        requires
            old(self).wf(),
            !old(self).spec_done(),
        ensures
            final(self).wf(),
            final(self).category == old(self).category,
            final(self).page_size == old(self).page_size,
            final(self).results@ == old(self).results@,
            final(self).paging is None,
            final(self).stack@ == if old(self).probing() {
                old(self).stack@.drop_last()
            } else {
                old(self).stack@
            },
    {
        match self.paging {
            Some(_) => {
                self.paging = None;
            },
            None => {
                let popped = self.stack.pop();
                proof {
                    assert(popped is Some);
                }
            },
        }
    }

    /// Hands the deduplicated results to the caller.
    pub fn into_results(self) -> (r: ResultSet)
        ensures
            r == self.results,
    {
        self.results
    }
}

/// The weight a stack of pending regions adds to the traversal
/// measure: twice the area, less one, of each region.  A bisection
/// replaces a weight `2a - 1` by `2a - 2` (the halves' areas sum to
/// the whole's), so even a split makes the measure fall.
pub open spec fn stack_measure(s: Seq<BoundingBox>) -> int
    decreases s.len(),
{
    if s.len() == 0 {
        0
    } else {
        stack_measure(s.drop_last()) + 2 * s.last().area() - 1
    }
}

/// How many more records the current region may still demand: the
/// pagination debt.  Zero between regions.
pub open spec fn page_debt(p: Option<Paging>) -> int {
    match p {
        Some(q) => q.remaining as int,
        None => 0,
    }
}

/// A stack of valid regions weighs at least one per entry, so popping
/// one always lowers the measure.
pub proof fn lemma_stack_measure_bounds(s: Seq<BoundingBox>)
    requires
        forall|i: int| 0 <= i < s.len() ==> (#[trigger] s[i]).wf(),
    ensures
        stack_measure(s) >= s.len(),
    decreases s.len(),
{
    if s.len() > 0 {
        assert(forall|i: int| 0 <= i < s.drop_last().len() ==> (#[trigger] s.drop_last()[i]).wf());
        lemma_stack_measure_bounds(s.drop_last());
        assert(s.last().area() >= 1) by (nonlinear_arith)
            requires
                s.last().spec_width() >= 1,
                s.last().spec_height() >= 1,
        ;
    }
}

/// Pushing one region adds exactly its weight.
proof fn lemma_stack_measure_push(s: Seq<BoundingBox>, b: BoundingBox)
    ensures
        stack_measure(s.push(b)) == stack_measure(s) + 2 * b.area() - 1,
{
    assert(s.push(b).drop_last() =~= s);
}

/// Full retrieval termination: every step of the engine — a page
/// accepted or a fetch failed — strictly shrinks the traversal
/// measure, the pair of [`stack_measure`] and [`page_debt`] ordered
/// lexicographically.  Both components are bounded below by zero, so a
/// loop that fetches what [`RegionEnumerator::next_query`] asks for
/// and reports each outcome ends after finitely many requests,
/// whatever the service reports: the bisection safeguard leaves no way
/// to subdivide forever.
pub proof fn lemma_step_measure_decreases(pre: RegionEnumerator, body: ResponseBody)
    requires
        pre.wf(),
        !pre.spec_done(),
    ensures
        stack_measure(pre.stack_after_page(body)) >= 0,
        page_debt(pre.paging_after_page(body)) >= 0,
        stack_measure(pre.stack_after_page(body)) < stack_measure(pre.stack@) || (stack_measure(
            pre.stack_after_page(body),
        ) == stack_measure(pre.stack@) && page_debt(pre.paging_after_page(body)) < page_debt(
            pre.paging,
        )),
        stack_measure(if pre.probing() {
            pre.stack@.drop_last()
        } else {
            pre.stack@
        }) < stack_measure(pre.stack@) || (pre.probing() == false && page_debt(
            Option::<Paging>::None,
        ) < page_debt(pre.paging)),
{
    let s = pre.stack@;
    lemma_stack_measure_bounds(s);
    if pre.probing() {
        let top = pre.probe_region();
        let rest = s.drop_last();
        assert(forall|i: int| 0 <= i < rest.len() ==> (#[trigger] rest[i]).wf());
        lemma_stack_measure_bounds(rest);
        assert(top.wf());
        if saturated(body.meta) && top.splittable() {
            crate::geo::lemma_split_shrinks(top);
            let h1 = top.split_spec().0;
            let h2 = top.split_spec().1;
            lemma_stack_measure_push(rest, h1);
            lemma_stack_measure_push(rest.push(h1), h2);
            assert(h1.area() + h2.area() == top.area()) by {
                lemma_split_areas_sum(top);
            }
        } else {
            assert(top.area() >= 1) by (nonlinear_arith)
                requires
                    top.spec_width() >= 1,
                    top.spec_height() >= 1,
            ;
        }
    } else {
        lemma_stack_measure_bounds(pre.stack_after_page(body));
    }
}

/// The two halves of a bisection cover the whole's area exactly.
proof fn lemma_split_areas_sum(b: BoundingBox)
    requires
        b.wf(),
        b.splittable(),
    ensures
        b.split_spec().0.area() + b.split_spec().1.area() == b.area(),
{
    let w = b.spec_width();
    let h = b.spec_height();
    if w > h {
        let wl = w / 2;
        assert((wl * h) + ((w - wl) * h) == w * h) by (nonlinear_arith);
    } else {
        let hl = h / 2;
        assert((w * hl) + (w * (h - hl)) == w * h) by (nonlinear_arith);
    }
}

/// Coverage under saturation: a probe that finds its region saturated
/// adds none of the page's records to the results and enqueues
/// exactly two sub-regions in its region's place, and they tile it —
/// every point of the region falls in exactly one of the two.
pub proof fn lemma_saturated_probe_splits(
    pre: RegionEnumerator,
    body: ResponseBody,
    x: int,
    y: int,
)
    requires
        pre.wf(),
        !pre.spec_done(),
        pre.probing(),
        saturated(body.meta),
        pre.probe_region().splittable(),
    ensures
        pre.results_after_page(body) == pre.results@,
        pre.paging_after_page(body) is None,
        pre.stack_after_page(body).len() == pre.stack@.len() + 1,
        pre.stack_after_page(body) == pre.stack@.drop_last().push(
            pre.probe_region().split_spec().0,
        ).push(pre.probe_region().split_spec().1),
        ({
            let first = pre.probe_region().split_spec().0;
            let second = pre.probe_region().split_spec().1;
            &&& (pre.probe_region().contains_point(x, y) <==> (first.contains_point(x, y)
                || second.contains_point(x, y)))
            &&& !(first.contains_point(x, y) && second.contains_point(x, y))
        }),
{
    crate::geo::lemma_split_tiles(pre.probe_region(), x, y);
}

} // verus!
