use vstd::prelude::*;
use vstd::string::StrSliceExecFns;

verus! {

/// The characters of `s`, one by one, for verified character-level
/// processing of labels.
pub fn chars_of(s: &str) -> (r: Vec<char>)
    ensures
        r@ == s@,
{
    let n = s.unicode_len();
    let mut r: Vec<char> = Vec::new();
    let mut i: usize = 0;
    while i < n
        invariant
            i <= n,
            n == s@.len(),
            r@ == s@.take(i as int),
        decreases n - i,
    {
        r.push(s.get_char(i));
        assert(s@.take((i + 1) as int) =~= s@.take(i as int).push(s@[i as int]));
        i += 1;
    }
    assert(s@.take(n as int) =~= s@);
    r
}

/// Whether the characters `cs` spell exactly the string `s`.
pub fn chars_eq_str(cs: &Vec<char>, s: &str) -> (r: bool)
    ensures
        r == (cs@ == s@),
{
    let n = s.unicode_len();
    if cs.len() != n {
        return false;
    }
    let mut i: usize = 0;
    while i < n
        invariant
            i <= n,
            n == s@.len(),
            cs@.len() == n,
            forall|j: int| 0 <= j < i ==> cs@[j] == s@[j],
        decreases n - i,
    {
        if cs[i] != s.get_char(i) {
            assert(cs@[i as int] != s@[i as int]);
            return false;
        }
        i += 1;
    }
    assert(cs@ =~= s@);
    true
}

/// The segments of a label, split on `'>'`: the separator belongs to
/// no segment, and `n` separators yield `n + 1` segments, empty ones
/// included.
pub open spec fn split_label(s: Seq<char>) -> Seq<Seq<char>>
    decreases s.len(),
{
    if s.len() == 0 {
        seq![Seq::<char>::empty()]
    } else if s[0] == '>' {
        seq![Seq::<char>::empty()] + split_label(s.skip(1))
    } else {
        let rest = split_label(s.skip(1));
        seq![seq![s[0]] + rest[0]] + rest.skip(1)
    }
}

/// A split always yields at least one segment.
pub proof fn lemma_split_label_len(s: Seq<char>)
    ensures
        split_label(s).len() >= 1,
    decreases s.len(),
{
    if s.len() > 0 {
        lemma_split_label_len(s.skip(1));
    }
}

/// Splits the tail of `cs` that starts at `i`; see [`split_label`].
fn split_from(cs: &Vec<char>, i: usize) -> (r: Vec<Vec<char>>)
    requires
        i <= cs.len(),
    ensures
        r@.len() == split_label(cs@.skip(i as int)).len(),
        forall|k: int| 0 <= k < r@.len() ==> #[trigger] r@[k]@ == split_label(cs@.skip(i as int))[k],
    decreases cs.len() - i,
{
    let ghost tail = cs@.skip(i as int);
    if i == cs.len() {
        assert(tail =~= Seq::<char>::empty());
        let mut r: Vec<Vec<char>> = Vec::new();
        r.push(Vec::new());
        r
    } else {
        let c = cs[i];
        proof {
            assert(tail[0] == cs@[i as int]);
            assert(tail.skip(1) =~= cs@.skip((i + 1) as int));
            lemma_split_label_len(cs@.skip((i + 1) as int));
        }
        let mut r = split_from(cs, i + 1);
        let ghost sub = r@;
        if c == '>' {
            r.insert(0, Vec::new());
            assert(forall|k: int|
                0 <= k < r@.len() ==> #[trigger] r@[k]@ == split_label(tail)[k]);
            r
        } else {
            let mut first = r.remove(0);
            first.insert(0, c);
            r.insert(0, first);
            assert(first@ =~= seq![tail[0]] + sub[0]@);
            assert(forall|k: int|
                1 <= k < r@.len() ==> #[trigger] r@[k]@ == split_label(tail)[k]);
            r
        }
    }
}

/// The segments of the label `cs`, split on `'>'`.
pub fn split_label_chars(cs: &Vec<char>) -> (r: Vec<Vec<char>>)
    ensures
        r@.len() == split_label(cs@).len(),
        forall|k: int| 0 <= k < r@.len() ==> #[trigger] r@[k]@ == split_label(cs@)[k],
{
    assert(cs@.skip(0) =~= cs@);
    split_from(cs, 0)
}

/// The whitespace that trimming removes from a label's ends: the
/// Unicode white-space characters, the set the standard library's
/// trim removes.
pub open spec fn is_space(c: char) -> bool {
    ||| c == ' '
    ||| c == '\t'
    ||| c == '\n'
    ||| c == '\u{B}'
    ||| c == '\u{C}'
    ||| c == '\r'
    ||| c == '\u{85}'
    ||| c == '\u{A0}'
    ||| c == '\u{1680}'
    ||| c == '\u{2000}'
    ||| c == '\u{2001}'
    ||| c == '\u{2002}'
    ||| c == '\u{2003}'
    ||| c == '\u{2004}'
    ||| c == '\u{2005}'
    ||| c == '\u{2006}'
    ||| c == '\u{2007}'
    ||| c == '\u{2008}'
    ||| c == '\u{2009}'
    ||| c == '\u{200A}'
    ||| c == '\u{2028}'
    ||| c == '\u{2029}'
    ||| c == '\u{202F}'
    ||| c == '\u{205F}'
    ||| c == '\u{3000}'
}

/// `s` without its leading whitespace.
pub open spec fn drop_leading(s: Seq<char>) -> Seq<char>
    decreases s.len(),
{
    if s.len() > 0 && is_space(s[0]) {
        drop_leading(s.skip(1))
    } else {
        s
    }
}

/// `s` without its trailing whitespace.
pub open spec fn drop_trailing(s: Seq<char>) -> Seq<char>
    decreases s.len(),
{
    if s.len() > 0 && is_space(s.last()) {
        drop_trailing(s.drop_last())
    } else {
        s
    }
}

/// `s` without leading and trailing whitespace.
pub open spec fn trim_spec(s: Seq<char>) -> Seq<char> {
    drop_leading(drop_trailing(s))
}

/// Whether trimming removes `c`.
fn is_space_char(c: char) -> (r: bool)
    ensures
        r == is_space(c),
{
    c == ' ' || c == '\t' || c == '\n' || c == '\u{B}' || c == '\u{C}' || c == '\r'
        || c == '\u{85}' || c == '\u{A0}' || c == '\u{1680}' || c == '\u{2000}'
        || c == '\u{2001}' || c == '\u{2002}' || c == '\u{2003}' || c == '\u{2004}'
        || c == '\u{2005}' || c == '\u{2006}' || c == '\u{2007}' || c == '\u{2008}'
        || c == '\u{2009}' || c == '\u{200A}' || c == '\u{2028}' || c == '\u{2029}'
        || c == '\u{202F}' || c == '\u{205F}' || c == '\u{3000}'
}

/// The characters of `cs` without leading and trailing whitespace.
pub fn trim_chars(cs: &Vec<char>) -> (r: Vec<char>)
    ensures
        r@ == trim_spec(cs@),
{
    let mut end = cs.len();
    assert(cs@.take(cs@.len() as int) =~= cs@);
    while end > 0 && is_space_char(cs[end - 1])
        invariant
            end <= cs.len(),
            drop_trailing(cs@) == drop_trailing(cs@.take(end as int)),
        decreases end,
    {
        assert(cs@.take(end as int).drop_last() =~= cs@.take((end - 1) as int));
        end -= 1;
    }
    let ghost t = cs@.take(end as int);
    assert(drop_trailing(t) == t);
    let mut start: usize = 0;
    assert(t.skip(0) =~= t);
    while start < end && is_space_char(cs[start])
        invariant
            start <= end <= cs.len(),
            t == cs@.take(end as int),
            drop_leading(t) == drop_leading(t.skip(start as int)),
        decreases end - start,
    {
        assert(t.skip(start as int)[0] == cs@[start as int]);
        assert(t.skip(start as int).skip(1) =~= t.skip((start + 1) as int));
        start += 1;
    }
    assert(drop_leading(t.skip(start as int)) == t.skip(start as int));
    let mut r: Vec<char> = Vec::new();
    let mut i = start;
    while i < end
        invariant
            start <= i <= end <= cs.len(),
            r@ == cs@.subrange(start as int, i as int),
        decreases end - i,
    {
        r.push(cs[i]);
        assert(cs@.subrange(start as int, (i + 1) as int) =~= cs@.subrange(
            start as int,
            i as int,
        ).push(cs@[i as int]));
        i += 1;
    }
    assert(t.skip(start as int) =~= cs@.subrange(start as int, end as int));
    r
}

} // verus!
