use api_data_sync::{
    BoundingBox, Category, Coords, Document, Meta, RegionEnumerator, ResponseBody, ResultSet,
};

fn doc(id: &str) -> Document {
    Document {
        address_name: String::new(),
        category_name: String::new(),
        id: id.to_string(),
        phone: String::new(),
        place_name: String::new(),
        place_url: String::new(),
        road_address_name: String::new(),
        x: String::new(),
        y: String::new(),
    }
}

fn docs(ids: &[&str]) -> Vec<Document> {
    ids.iter().map(|id| doc(id)).collect()
}

fn region(x1: i64, y1: i64, x2: i64, y2: i64) -> BoundingBox {
    BoundingBox::new(Coords::new(x1, y1).unwrap(), Coords::new(x2, y2).unwrap()).unwrap()
}

fn page(ids: &[&str], pageable_count: usize, total_count: usize, is_end: bool) -> ResponseBody {
    ResponseBody { documents: docs(ids), meta: Meta { is_end, pageable_count, total_count } }
}

fn ids_of(set: &ResultSet) -> Vec<String> {
    let mut ids: Vec<String> =
        set.documents().iter().map(|d| d.id.clone()).collect();
    ids.sort();
    ids
}

#[test]
fn saturated_region_splits_and_keeps_nothing() {
    // Page 1 reports far more matches than pagination can deliver: the
    // page's records must be discarded and exactly two sub-regions
    // must take the region's place, tiling it along the longer axis.
    let r = region(0, 0, 4_000_000, 2_000_000);
    let mut e = RegionEnumerator::new(r, Category::Restaurant, 15);
    let q = e.next_query().unwrap();
    assert_eq!(q.page, 1);
    assert_eq!(q.region, r);

    e.on_page(page(&["a", "b", "c"], 45, 120, false));

    assert_eq!(e.results.len(), 0);
    assert_eq!(e.stack.len(), 2);
    let (h1, h2) = (e.stack[0], e.stack[1]);
    // The longer axis is the longitude span; the halves share only the
    // bisection line and together give back the original region.
    assert_eq!(h1.sw, r.sw);
    assert_eq!(h2.ne, r.ne);
    assert_eq!(h1.ne.x, 2_000_000);
    assert_eq!(h2.sw.x, 2_000_000);
    assert_eq!(h1.ne.y, r.ne.y);
    assert_eq!(h2.sw.y, r.sw.y);
}

#[test]
fn tie_splits_along_latitude() {
    let r = region(0, 0, 2_000_000, 2_000_000);
    let mut e = RegionEnumerator::new(r, Category::Cafe, 15);
    e.next_query().unwrap();
    e.on_page(page(&[], 45, 120, false));
    let (h1, h2) = (e.stack[0], e.stack[1]);
    assert_eq!(h1.ne.y, 1_000_000);
    assert_eq!(h2.sw.y, 1_000_000);
    assert_eq!(h1.ne.x, r.ne.x);
    assert_eq!(h2.sw.x, r.sw.x);
}

#[test]
fn full_retrieval_terminates() {
    // The cap equals the true match count and page 1 already returns
    // everything it owes, but is not flagged as the last page: the
    // engine trusts the flag and asks for one closing page, which
    // arrives empty and flagged.  Exactly two requests, 15 unique
    // records.
    let r = region(0, 0, 1_000_000, 1_000_000);
    let mut e = RegionEnumerator::new(r, Category::Restaurant, 15);
    let all: Vec<String> = (0..15).map(|i| format!("id{i}")).collect();
    let all_refs: Vec<&str> = all.iter().map(|s| s.as_str()).collect();

    let q = e.next_query().unwrap();
    assert_eq!(q.page, 1);
    e.on_page(page(&all_refs, 15, 15, false));

    let q = e.next_query().unwrap();
    assert_eq!(q.page, 2, "an unflagged first page owes a second request");
    e.on_page(page(&[], 15, 15, true));

    assert!(e.next_query().is_none());
    assert_eq!(e.results.len(), 15);
    assert!(e.is_done());
}

#[test]
fn flagged_first_page_ends_the_region() {
    // The same counts, but page 1 is flagged as the last: one request.
    let r = region(0, 0, 1_000_000, 1_000_000);
    let mut e = RegionEnumerator::new(r, Category::Restaurant, 15);
    let all: Vec<String> = (0..15).map(|i| format!("id{i}")).collect();
    let all_refs: Vec<&str> = all.iter().map(|s| s.as_str()).collect();
    let mut requests = 0;
    while let Some(_q) = e.next_query() {
        requests += 1;
        e.on_page(page(&all_refs, 15, 15, true));
    }
    assert_eq!(requests, 1);
    assert_eq!(e.results.len(), 15);
}

#[test]
fn zero_match_short_circuits() {
    let r = region(0, 0, 1_000_000, 1_000_000);
    let mut e = RegionEnumerator::new(r, Category::Restaurant, 15);
    let mut requests = 0;
    while let Some(_q) = e.next_query() {
        requests += 1;
        e.on_page(page(&[], 0, 0, true));
    }
    assert_eq!(requests, 1);
    assert_eq!(e.results.len(), 0);
    assert!(e.is_done());
}

#[test]
fn multi_page_region_pages_to_the_end() {
    // 45 retrievable records at page size 15: three requests, all
    // records kept once.
    let r = region(0, 0, 1_000_000, 1_000_000);
    let mut e = RegionEnumerator::new(r, Category::Restaurant, 15);
    let ids: Vec<String> = (0..45).map(|i| format!("id{i}")).collect();
    let mut requests = 0;
    while let Some(q) = e.next_query() {
        let start = (q.page - 1) * 15;
        let chunk: Vec<&str> = ids[start..start + 15].iter().map(|s| s.as_str()).collect();
        requests += 1;
        e.on_page(page(&chunk, 45, 45, q.page == 3));
    }
    assert_eq!(requests, 3);
    assert_eq!(e.results.len(), 45);
}

#[test]
fn later_page_failure_keeps_partial_results() {
    // A region that needs three pages fails on page 2: only page 1's
    // records survive for it, and the traversal moves on to the next
    // pending region instead of aborting.
    let r = region(0, 0, 4_000_000, 2_000_000);
    let mut e = RegionEnumerator::new(r, Category::Restaurant, 15);

    // Probe the initial region: saturated, so two halves are pending.
    e.next_query().unwrap();
    e.on_page(page(&[], 45, 120, false));
    assert_eq!(e.stack.len(), 2);
    let lower_half = e.stack[0];

    // Probe the top half: 45 records retrievable, 3 pages needed.
    let q = e.next_query().unwrap();
    assert_eq!(q.page, 1);
    let first: Vec<String> = (0..15).map(|i| format!("p{i}")).collect();
    let first_refs: Vec<&str> = first.iter().map(|s| s.as_str()).collect();
    e.on_page(page(&first_refs, 45, 45, false));
    assert_eq!(e.next_query().unwrap().page, 2);

    // Page 2 fails: the 15 records stay, the region is left behind.
    e.on_failure();
    assert_eq!(e.results.len(), 15);

    // The traversal continues with the other half.
    let q = e.next_query().unwrap();
    assert_eq!(q.page, 1);
    assert_eq!(q.region, lower_half);
    e.on_page(page(&["z1", "z2"], 15, 15, true));
    assert!(e.is_done());
    assert_eq!(e.results.len(), 17);
}

#[test]
fn probe_failure_abandons_whole_region() {
    let r = region(0, 0, 1_000_000, 1_000_000);
    let mut e = RegionEnumerator::new(r, Category::Restaurant, 15);
    assert!(!e.is_done());
    e.on_failure();
    assert!(e.is_done());
    assert_eq!(e.results.len(), 0);
}

#[test]
fn duplicate_across_regions_kept_once() {
    let r = region(0, 0, 4_000_000, 2_000_000);
    let mut e = RegionEnumerator::new(r, Category::Restaurant, 15);
    e.next_query().unwrap();
    e.on_page(page(&[], 45, 120, false));
    // Both halves report the entity "shared"; it must survive once.
    e.next_query().unwrap();
    e.on_page(page(&["shared", "right"], 15, 15, true));
    e.next_query().unwrap();
    e.on_page(page(&["shared", "left"], 15, 15, true));
    assert!(e.is_done());
    assert_eq!(ids_of(&e.results), vec!["left", "right", "shared"]);
}

/// Drives one full enumeration against a scripted stable remote: a
/// fixed ground set of located entities, a per-region retrieval cap of
/// `cap` records, pages of up to `size` records.
fn enumerate_scripted(
    start: BoundingBox,
    ground: &[(&str, i64, i64)],
    cap: usize,
    size: usize,
) -> ResultSet {
    let mut e = RegionEnumerator::new(start, Category::Restaurant, size);
    while let Some(q) = e.next_query() {
        let b = q.region;
        let matches: Vec<&str> = ground
            .iter()
            .filter(|(_, x, y)| b.sw.x <= *x && *x < b.ne.x && b.sw.y <= *y && *y < b.ne.y)
            .map(|(id, _, _)| *id)
            .collect();
        let retrievable = matches.len().min(cap);
        let lo = (q.page - 1) * size;
        let hi = (lo + size).min(retrievable);
        let chunk: Vec<&str> = matches[lo.min(retrievable)..hi].to_vec();
        e.on_page(ResponseBody {
            documents: docs(&chunk),
            meta: Meta {
                is_end: hi >= retrievable,
                pageable_count: retrievable,
                total_count: matches.len(),
            },
        });
    }
    e.into_results()
}

#[test]
fn split_halves_enumerate_to_the_same_set() {
    // Enumerating a region directly and enumerating its two halves
    // independently, against the same stable remote, gather the same
    // entities.
    let ground: Vec<(&str, i64, i64)> = vec![
        ("a", 100, 100),
        ("b", 900_000, 200_000),
        ("c", 1_100_000, 800_000),
        ("d", 1_900_000, 900_000),
        ("e", 400_000, 700_000),
        ("f", 1_500_000, 300_000),
    ];
    let r = region(0, 0, 2_000_000, 1_000_000);
    let (h1, h2) = r.split();

    let whole = enumerate_scripted(r, &ground, 2, 2);
    let left = enumerate_scripted(h1, &ground, 2, 2);
    let right = enumerate_scripted(h2, &ground, 2, 2);

    let merged = ResultSet::merge(left, right);
    assert_eq!(ids_of(&whole), ids_of(&merged));
    assert_eq!(ids_of(&whole), vec!["a", "b", "c", "d", "e", "f"]);
}
