use vstd::prelude::*;
use vstd::string::*;

verus! {

/// `q` occurs in `s` as a contiguous run of characters starting at `i`.
pub open spec fn occurs_at(s: Seq<char>, q: Seq<char>, i: int) -> bool {
    0 <= i && i + q.len() <= s.len() && s.subrange(i, i + q.len()) == q
}

/// `q` is a substring of `s`.
pub open spec fn contains_seq(s: Seq<char>, q: Seq<char>) -> bool {
    exists|i: int| occurs_at(s, q, i)
}

/// The entries of `files`, in their order, whose text contains `q`.
pub open spec fn filter_spec(files: Seq<Seq<char>>, q: Seq<char>) -> Seq<Seq<char>>
    decreases files.len(),
{
    if files.len() == 0 {
        Seq::empty()
    } else {
        let rest = filter_spec(files.drop_last(), q);
        if contains_seq(files.last(), q) {
            rest.push(files.last())
        } else {
            rest
        }
    }
}

/// `xs` can be obtained from `ys` by deleting elements.
pub open spec fn is_subsequence(xs: Seq<Seq<char>>, ys: Seq<Seq<char>>) -> bool
    decreases ys.len(),
{
    if xs.len() == 0 {
        true
    } else if ys.len() == 0 {
        false
    } else {
        (xs.last() == ys.last() && is_subsequence(xs.drop_last(), ys.drop_last()))
            || is_subsequence(xs, ys.drop_last())
    }
}

/// The text of each path in a list of paths.
pub open spec fn texts(v: Seq<String>) -> Seq<Seq<char>> {
    v.map_values(|s: String| s@)
}

/// Filtering keeps a subsequence of the list, every entry it keeps contains the
/// query, and filtering by the empty query keeps the whole list.
pub proof fn lemma_filter_laws(files: Seq<Seq<char>>, q: Seq<char>)
    ensures
        is_subsequence(filter_spec(files, q), files),
        forall|k: int|
            0 <= k < filter_spec(files, q).len() ==> contains_seq(
                #[trigger] filter_spec(files, q)[k],
                q,
            ),
        filter_spec(files, Seq::empty()) == files,
    decreases files.len(),
{
    if files.len() > 0 {
        lemma_filter_laws(files.drop_last(), q);
        let rest = filter_spec(files.drop_last(), q);
        if contains_seq(files.last(), q) {
            assert(rest.push(files.last()).drop_last() == rest);
        }
        let e = Seq::<char>::empty();
        assert(occurs_at(files.last(), e, 0)) by {
            assert(files.last().subrange(0, 0) == e);
        }
        assert(files.drop_last().push(files.last()) == files);
    }
}

/// Whether `q` occurs in `s` at character position `i`.
fn matches_at(s: &str, q: &str, i: usize, n: usize, m: usize) -> (r: bool)
    requires
        n == s@.len(),
        m == q@.len(),
        i + m <= n,
    ensures
        r == occurs_at(s@, q@, i as int),
{
    let mut j: usize = 0;
    while j < m
        invariant
            n == s@.len(),
            m == q@.len(),
            i + m <= n,
            j <= m,
            forall|k: int| 0 <= k < j ==> s@[i + k] == q@[k],
        decreases m - j,
    {
        if s.get_char(i + j) != q.get_char(j) {
            assert(s@.subrange(i as int, i + m)[j as int] != q@[j as int]);
            return false;
        }
        j = j + 1;
    }
    assert(s@.subrange(i as int, i + m) =~= q@);
    true
}

/// Whether `q` occurs in `s` as a substring; the empty query occurs everywhere.
pub fn contains(s: &String, q: &String) -> (r: bool)
    ensures
        r == contains_seq(s@, q@),
{
    let st = s.as_str();
    let qt = q.as_str();
    let n = st.unicode_len();
    let m = qt.unicode_len();
    if m > n {
        assert(forall|i: int| !occurs_at(s@, q@, i));
        return false;
    }
    let last: usize = n - m;
    let mut i: usize = 0;
    loop
        invariant
            n == s@.len(),
            m == q@.len(),
            st@ == s@,
            qt@ == q@,
            last == n - m,
            i <= last,
            forall|k: int| 0 <= k < i ==> !occurs_at(s@, q@, k),
        decreases last - i,
    {
        if matches_at(st, qt, i, n, m) {
            assert(occurs_at(s@, q@, i as int));
            return true;
        }
        if i == last {
            assert forall|k: int| !occurs_at(s@, q@, k) by {
                if k > i {
                    assert(k + m > n);
                }
            }
            return false;
        }
        i = i + 1;
    }
}

/// The entries of `files` whose text contains `query`, in their original order.
pub fn filter_paths(files: &Vec<String>, query: &String) -> (r: Vec<String>)
    ensures
        texts(r@) == filter_spec(texts(files@), query@),
{
    let mut r: Vec<String> = Vec::new();
    let mut i: usize = 0;
    while i < files.len()
        invariant
            i <= files@.len(),
            texts(r@) == filter_spec(texts(files@.subrange(0, i as int)), query@),
        decreases files@.len() - i,
    {
        proof {
            assert(texts(files@.subrange(0, i + 1)).drop_last() == texts(
                files@.subrange(0, i as int),
            ));
            assert(texts(files@.subrange(0, i + 1)).last() == files@[i as int]@);
        }
        if contains(&files[i], query) {
            r.push(files[i].clone());
            assert(texts(r@) =~= filter_spec(texts(files@.subrange(0, i as int)), query@).push(
                files@[i as int]@,
            ));
        }
        i = i + 1;
    }
    assert(files@.subrange(0, i as int) == files@);
    r
}

} // verus!
