use vstd::prelude::*;

use crate::dto::{key, Document};

verus! {

/// Whether some record in `s` carries the identifier `k`.
pub open spec fn has_key(s: Seq<Document>, k: Seq<char>) -> bool {
    exists|i: int| 0 <= i < s.len() && key(#[trigger] s[i]) == k
}

/// What one insertion leaves behind: nothing when the identifier is
/// already present (first seen wins), the record appended otherwise.
pub open spec fn spec_insert(s: Seq<Document>, d: Document) -> Seq<Document> {
    if has_key(s, key(d)) {
        s
    } else {
        s.push(d)
    }
}

/// `spec_insert` folded over a page of records, left to right.
pub open spec fn spec_insert_all(s: Seq<Document>, docs: Seq<Document>) -> Seq<Document>
    decreases docs.len(),
{
    if docs.len() == 0 {
        s
    } else {
        spec_insert_all(spec_insert(s, docs[0]), docs.skip(1))
    }
}

/// The records gathered over every region visited, deduplicated by
/// identity: no two entries ever share an identifier.
pub struct ResultSet {
    docs: Vec<Document>,
}

impl View for ResultSet {
    type V = Seq<Document>;

    closed spec fn view(&self) -> Seq<Document> {
        self.docs@
    }
}

impl ResultSet {
    /// No two entries share an identifier.
    pub open spec fn wf(self) -> bool {
        forall|i: int, j: int|
            0 <= i < j < self@.len() ==> key(#[trigger] self@[i]) != key(#[trigger] self@[j])
    }

    /// An empty collection.
    pub fn new() -> (r: ResultSet)
        ensures
            r@ == Seq::<Document>::empty(),
            r.wf(),
    {
        ResultSet { docs: Vec::new() }
    }

    /// How many distinct entities have been gathered.
    pub fn len(&self) -> (n: usize)
        ensures
            n == self@.len(),
    {
        self.docs.len()
    }

    /// Whether an entity with identifier `id` has been gathered.
    pub fn contains_id(&self, id: &String) -> (r: bool)
        ensures
            r == has_key(self@, id@),
    {
        let mut i: usize = 0;
        while i < self.docs.len()
            invariant
                i <= self.docs.len(),
                self.docs@ == self@,
                forall|j: int| 0 <= j < i ==> key(#[trigger] self.docs@[j]) != id@,
            decreases self.docs.len() - i,
        {
            if self.docs[i].id == *id {
                return true;
            }
            i += 1;
        }
        false
    }

    /// The entries, in first-seen order.
    pub fn documents(&self) -> (r: &Vec<Document>)
        ensures
            r@ == self@,
    {
        &self.docs
    }

    /// Hands the entries back to the caller, in first-seen order.
    pub fn into_documents(self) -> (r: Vec<Document>)
        ensures
            r@ == self@,
    {
        self.docs
    }

    /// Accepts a record unless its identifier is already present;
    /// a duplicate is silently discarded.
    pub fn insert(&mut self, d: Document)
        requires
            old(self).wf(),
        ensures
            final(self).wf(),
            final(self)@ == spec_insert(old(self)@, d),
    {
        let mut i: usize = 0;
        while i < self.docs.len()
            invariant
                i <= self.docs.len(),
                self@ == old(self)@,
                self.wf(),
                forall|j: int| 0 <= j < i ==> key(#[trigger] self.docs@[j]) != d.id@,
            decreases self.docs.len() - i,
        {
            if self.docs[i].id == d.id {
                assert(key(self@[i as int]) == key(d));
                return;
            }
            i += 1;
        }
        assert(!has_key(self@, key(d)));
        self.docs.push(d);
    }

    /// Inserts a whole page of records, first to last.
    pub fn insert_all(&mut self, docs: Vec<Document>)
        requires
            old(self).wf(),
        ensures
            final(self).wf(),
            final(self)@ == spec_insert_all(old(self)@, docs@),
    {
        let mut rest = docs;
        while rest.len() > 0
            invariant
                self.wf(),
                spec_insert_all(old(self)@, docs@) == spec_insert_all(self@, rest@),
            decreases rest.len(),
        {
            let ghost prev = rest@;
            let d = rest.remove(0);
            assert(prev.skip(1) =~= rest@);
            self.insert(d);
        }
    }

    /// Merges two collections: every entity of either side appears
    /// exactly once, and on an identifier both sides hold, the entry
    /// of `a` wins.
    pub fn merge(a: ResultSet, b: ResultSet) -> (r: ResultSet)
        requires
            a.wf(),
        ensures
            r.wf(),
            r@ == spec_insert_all(a@, b@),
    {
        let mut r = a;
        r.insert_all(b.into_documents());
        r
    }
}

/// Membership after one insertion: the identifiers present are those
/// present before plus the inserted record's.
pub proof fn lemma_insert_key(s: Seq<Document>, d: Document, k: Seq<char>)
    ensures
        has_key(spec_insert(s, d), k) == (has_key(s, k) || key(d) == k),
{
    if !has_key(s, key(d)) {
        let t = s.push(d);
        if has_key(t, k) {
            let i = choose|i: int| 0 <= i < t.len() && key(#[trigger] t[i]) == k;
            if i < s.len() {
                assert(key(s[i]) == k);
            }
        }
        if has_key(s, k) {
            let i = choose|i: int| 0 <= i < s.len() && key(#[trigger] s[i]) == k;
            assert(key(t[i]) == k);
        }
        if key(d) == k {
            assert(key(t[s.len() as int]) == k);
        }
    }
}

/// Merging is union by identity: an identifier is present after a
/// whole sequence of insertions exactly when it was present before or
/// some inserted record carries it.  This is what makes results
/// gathered from different regions, in any order, safe to pour into
/// one collection.
pub proof fn lemma_merge_is_union(s: Seq<Document>, docs: Seq<Document>, k: Seq<char>)
    ensures
        has_key(spec_insert_all(s, docs), k) == (has_key(s, k) || has_key(docs, k)),
    decreases docs.len(),
{
    if docs.len() > 0 {
        lemma_insert_key(s, docs[0], k);
        lemma_merge_is_union(spec_insert(s, docs[0]), docs.skip(1), k);
        assert(has_key(docs, k) == (key(docs[0]) == k || has_key(docs.skip(1), k))) by {
            if has_key(docs, k) {
                let i = choose|i: int| 0 <= i < docs.len() && key(#[trigger] docs[i]) == k;
                if i > 0 {
                    assert(key(docs.skip(1)[i - 1]) == k);
                }
            }
            if has_key(docs.skip(1), k) {
                let i = choose|i: int|
                    0 <= i < docs.skip(1).len() && key(#[trigger] docs.skip(1)[i]) == k;
                assert(key(docs[i + 1]) == k);
            }
            if key(docs[0]) == k {
                assert(has_key(docs, k));
            }
        }
    }
}

/// First seen wins: once a record is in, a later record carrying the
/// same identifier changes nothing, whatever its other fields hold.
pub proof fn lemma_dedup_idempotence(s: Seq<Document>, d1: Document, d2: Document)
    requires
        key(d1) == key(d2),
    ensures
        spec_insert(spec_insert(s, d1), d2) == spec_insert(s, d1),
{
    if has_key(s, key(d1)) {
        assert(has_key(spec_insert(s, d1), key(d2)));
    } else {
        let t = s.push(d1);
        assert(key(t[s.len() as int]) == key(d2));
        assert(has_key(t, key(d2)));
    }
}

} // verus!
