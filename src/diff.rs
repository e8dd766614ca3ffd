use vstd::prelude::*;
use vstd::string::*;

use vstd::std_specs::iter::IteratorSpec;

use crate::text::push_char;

verus! {

/// How a line of a diff relates the original text to the edited one.
#[derive(Clone, Copy, Debug, PartialEq, Eq, Structural)]
pub enum DiffKind {
    Unchanged,
    Added,
    Removed,
}

/// One tagged piece of a diff: a whole line once the diff is split into lines.
#[derive(Clone, Debug)]
pub struct DiffLine {
    pub kind: DiffKind,
    pub text: String,
}

impl View for DiffLine {
    type V = (DiffKind, Seq<char>);

    open spec fn view(&self) -> (DiffKind, Seq<char>) {
        (self.kind, self.text@)
    }
}

/// The tagged pieces of a diff, as mathematical values.
pub open spec fn pieces(v: Seq<DiffLine>) -> Seq<(DiffKind, Seq<char>)> {
    v.map_values(|d: DiffLine| d@)
}

/// The texts of the pieces whose kind is not `skip`, in order: with `skip` set to
/// `Added` this is the original side of a diff, with `Removed` the edited side.
pub open spec fn side(ps: Seq<(DiffKind, Seq<char>)>, skip: DiffKind) -> Seq<Seq<char>>
    decreases ps.len(),
{
    if ps.len() == 0 {
        Seq::empty()
    } else if ps.last().0 == skip {
        side(ps.drop_last(), skip)
    } else {
        side(ps.drop_last(), skip).push(ps.last().1)
    }
}

/// Lines put back together with a newline between each two.
pub open spec fn join_lines(ls: Seq<Seq<char>>) -> Seq<char>
    decreases ls.len(),
{
    if ls.len() == 0 {
        Seq::empty()
    } else if ls.len() == 1 {
        ls[0]
    } else {
        join_lines(ls.drop_last()) + seq!['\n'] + ls.last()
    }
}

/// A text cut at each newline; the newlines themselves are dropped, and a text
/// with `k` newlines has `k + 1` lines.
pub open spec fn split_lines_spec(s: Seq<char>) -> Seq<Seq<char>>
    decreases s.len(),
{
    if s.len() == 0 {
        seq![Seq::empty()]
    } else {
        let init = split_lines_spec(s.drop_last());
        if s.last() == '\n' {
            init.push(Seq::empty())
        } else {
            init.update(init.len() - 1, init.last().push(s.last()))
        }
    }
}

/// Each line of `ls` tagged with `k`.
pub open spec fn tag(ls: Seq<Seq<char>>, k: DiffKind) -> Seq<(DiffKind, Seq<char>)> {
    ls.map_values(|l: Seq<char>| (k, l))
}

/// The pieces of a diff cut into single lines, each keeping its piece's kind.
pub open spec fn expand_lines(ps: Seq<(DiffKind, Seq<char>)>) -> Seq<(DiffKind, Seq<char>)>
    decreases ps.len(),
{
    if ps.len() == 0 {
        Seq::empty()
    } else {
        expand_lines(ps.drop_last()) + tag(split_lines_spec(ps.last().1), ps.last().0)
    }
}

/// What `difference::Changeset::new` computes for two texts split on newlines.
pub uninterp spec fn changeset_of(a: Seq<char>, b: Seq<char>) -> Seq<(DiffKind, Seq<char>)>;

/// Whether some line of a diff is `Added` or `Removed`.
pub open spec fn has_change(ps: Seq<(DiffKind, Seq<char>)>) -> bool {
    exists|k: int| 0 <= k < ps.len() && (#[trigger] ps[k]).0 != DiffKind::Unchanged
}

/// The line diff of `a` and `b`, one entry per line.
pub open spec fn diff_spec(a: Seq<char>, b: Seq<char>) -> Seq<(DiffKind, Seq<char>)> {
    expand_lines(changeset_of(a, b))
}

proof fn lemma_split_nonempty(s: Seq<char>)
    ensures
        split_lines_spec(s).len() >= 1,
    decreases s.len(),
{
    if s.len() > 0 {
        lemma_split_nonempty(s.drop_last());
    }
}

proof fn lemma_join_split(s: Seq<char>)
    ensures
        join_lines(split_lines_spec(s)) == s,
    decreases s.len(),
{
    if s.len() > 0 {
        let init = split_lines_spec(s.drop_last());
        lemma_split_nonempty(s.drop_last());
        lemma_join_split(s.drop_last());
        if s.last() == '\n' {
            assert(init.push(Seq::empty()).drop_last() == init);
            if init.len() == 1 {
                assert(join_lines(init) == init[0]);
            }
            assert(s.drop_last() + seq!['\n'] + Seq::<char>::empty() =~= s);
        } else {
            let upd = init.update(init.len() - 1, init.last().push(s.last()));
            if init.len() == 1 {
                assert(join_lines(upd) == upd[0]);
                assert(s =~= s.drop_last().push(s.last()));
            } else {
                assert(upd.drop_last() == init.drop_last());
                assert(join_lines(upd) =~= join_lines(init).push(s.last()));
                assert(s =~= s.drop_last().push(s.last()));
            }
        }
    }
}

proof fn lemma_join_append(xs: Seq<Seq<char>>, ys: Seq<Seq<char>>)
    requires
        xs.len() > 0,
        ys.len() > 0,
    ensures
        join_lines(xs + ys) == join_lines(xs) + seq!['\n'] + join_lines(ys),
    decreases ys.len(),
{
    assert((xs + ys).drop_last() =~= xs + ys.drop_last());
    assert((xs + ys).last() == ys.last());
    if ys.len() == 1 {
        assert(xs + ys.drop_last() =~= xs);
    } else {
        lemma_join_append(xs, ys.drop_last());
        assert(join_lines(xs) + seq!['\n'] + join_lines(ys.drop_last()) + seq!['\n'] + ys.last()
            =~= join_lines(xs) + seq!['\n'] + (join_lines(ys.drop_last()) + seq!['\n']
            + ys.last()));
    }
}

proof fn lemma_side_append(xs: Seq<(DiffKind, Seq<char>)>, ys: Seq<(DiffKind, Seq<char>)>, skip: DiffKind)
    ensures
        side(xs + ys, skip) == side(xs, skip) + side(ys, skip),
    decreases ys.len(),
{
    if ys.len() == 0 {
        assert(xs + ys =~= xs);
        assert(side(xs, skip) + side(ys, skip) =~= side(xs, skip));
    } else {
        assert((xs + ys).drop_last() =~= xs + ys.drop_last());
        assert((xs + ys).last() == ys.last());
        lemma_side_append(xs, ys.drop_last(), skip);
        if ys.last().0 != skip {
            assert(side(xs, skip) + side(ys.drop_last(), skip).push(ys.last().1)
                =~= (side(xs, skip) + side(ys.drop_last(), skip)).push(ys.last().1));
        }
    }
}

proof fn lemma_side_tag(ls: Seq<Seq<char>>, k: DiffKind, skip: DiffKind)
    ensures
        side(tag(ls, k), skip) == (if k == skip {
            Seq::<Seq<char>>::empty()
        } else {
            ls
        }),
    decreases ls.len(),
{
    if ls.len() > 0 {
        assert(tag(ls, k).drop_last() =~= tag(ls.drop_last(), k));
        lemma_side_tag(ls.drop_last(), k, skip);
        assert(ls.drop_last().push(ls.last()) =~= ls);
    }
}

proof fn lemma_expand_unchanged(ps: Seq<(DiffKind, Seq<char>)>)
    requires
        !has_change(ps),
    ensures
        !has_change(expand_lines(ps)),
    decreases ps.len(),
{
    if ps.len() > 0 {
        assert(!has_change(ps.drop_last())) by {
            assert forall|k: int| 0 <= k < ps.drop_last().len() implies (
            #[trigger] ps.drop_last()[k]).0 == DiffKind::Unchanged by {
                assert(ps.drop_last()[k] == ps[k]);
            }
        }
        lemma_expand_unchanged(ps.drop_last());
        let xs = expand_lines(ps.drop_last());
        let ys = tag(split_lines_spec(ps.last().1), ps.last().0);
        assert(ps[ps.len() - 1].0 == DiffKind::Unchanged);
        assert forall|k: int| 0 <= k < (xs + ys).len() implies (#[trigger] (xs + ys)[k]).0
            == DiffKind::Unchanged by {
            if k >= xs.len() {
                assert((xs + ys)[k] == ys[k - xs.len()]);
            } else {
                assert((xs + ys)[k] == xs[k]);
            }
        }
    }
}

proof fn lemma_sides_agree(ps: Seq<(DiffKind, Seq<char>)>)
    requires
        !has_change(ps),
    ensures
        side(ps, DiffKind::Added) == side(ps, DiffKind::Removed),
    decreases ps.len(),
{
    if ps.len() > 0 {
        assert(!has_change(ps.drop_last())) by {
            assert forall|k: int| 0 <= k < ps.drop_last().len() implies (
            #[trigger] ps.drop_last()[k]).0 == DiffKind::Unchanged by {
                assert(ps.drop_last()[k] == ps[k]);
            }
        }
        lemma_sides_agree(ps.drop_last());
        assert(ps[ps.len() - 1].0 == DiffKind::Unchanged);
    }
}

/// Cutting the pieces of a diff into lines keeps each side of it.
proof fn lemma_expand_side(ps: Seq<(DiffKind, Seq<char>)>, skip: DiffKind)
    ensures
        join_lines(side(expand_lines(ps), skip)) == join_lines(side(ps, skip)),
        side(expand_lines(ps), skip).len() == 0 <==> side(ps, skip).len() == 0,
    decreases ps.len(),
{
    if ps.len() > 0 {
        let init = ps.drop_last();
        let (k, t) = ps.last();
        let ls = split_lines_spec(t);
        lemma_expand_side(init, skip);
        lemma_side_append(expand_lines(init), tag(ls, k), skip);
        lemma_side_tag(ls, k, skip);
        lemma_split_nonempty(t);
        lemma_join_split(t);
        let xs = side(expand_lines(init), skip);
        if k == skip {
            assert(xs + Seq::<Seq<char>>::empty() =~= xs);
        } else if xs.len() == 0 {
            assert(xs + ls =~= ls);
            assert(side(init, skip).push(t).len() == 1);
            assert(side(init, skip).push(t)[0] == t);
        } else {
            lemma_join_append(xs, ls);
            assert(side(init, skip).push(t).drop_last() == side(init, skip));
        }
    }
}

/// Relies on `difference::Changeset::new` with a newline separator: it cuts both
/// texts into lines and returns runs of lines tagged `Same`, `Rem` or `Add`, each
/// run joined back with newlines. Keeping the `Same` and `Rem` runs rebuilds the
/// original text, keeping the `Same` and `Add` runs rebuilds the edited one.
#[verifier::external_body]
fn changeset(a: &String, b: &String) -> (r: Vec<DiffLine>)
    ensures
        pieces(r@) == changeset_of(a@, b@),
        join_lines(side(pieces(r@), DiffKind::Added)) == a@,
        join_lines(side(pieces(r@), DiffKind::Removed)) == b@,
        a@ == b@ ==> forall|k: int| 0 <= k < r@.len() ==> (#[trigger] r@[k]).kind
            == DiffKind::Unchanged,
{
    difference::Changeset::new(a, b, "\n").diffs.into_iter().map(|d| match d {
        difference::Difference::Same(text) => DiffLine { kind: DiffKind::Unchanged, text },
        difference::Difference::Add(text) => DiffLine { kind: DiffKind::Added, text },
        difference::Difference::Rem(text) => DiffLine { kind: DiffKind::Removed, text },
    }).collect()
}

/// Cuts `s` at each newline.
pub fn split_lines(s: &String) -> (r: Vec<String>)
    ensures
        r@.map_values(|l: String| l@) == split_lines_spec(s@),
{
    broadcast use vstd::string::group_string_axioms;

    let st = s.as_str();
    let n = st.unicode_len();
    let mut chars = st.chars();
    let mut r: Vec<String> = Vec::new();
    let mut line = String::new();
    let mut start: usize = 0;
    let mut i: usize = 0;
    proof {
        assert(s@.subrange(0, 0) =~= Seq::<char>::empty());
        assert(s@.subrange(0, n as int) =~= s@);
        assert(r@.map_values(|l: String| l@).push(s@.subrange(0, 0)) =~= split_lines_spec(
            s@.subrange(0, 0),
        ));
    }
    while i < n
        invariant
            n == s@.len(),
            start <= i <= n,
            chars.remaining() == s@.subrange(i as int, n as int),
            line@ == s@.subrange(start as int, i as int),
            r@.map_values(|l: String| l@).push(line@) == split_lines_spec(
                s@.subrange(0, i as int),
            ),
        decreases n - i,
    {
        let c = chars.next().unwrap();
        let ghost before = r@.map_values(|l: String| l@);
        let ghost first = start;
        let ghost p = s@.subrange(0, i + 1);
        proof {
            assert(p.drop_last() == s@.subrange(0, i as int));
            assert(p.last() == c);
            assert(s@.subrange(i + 1, n as int) =~= s@.subrange(i as int, n as int).drop_first());
        }
        if c == '\n' {
            r.push(line);
            line = String::new();
            start = i + 1;
            assert(r@.map_values(|l: String| l@) =~= before.push(s@.subrange(first as int, i as int)));
            assert(s@.subrange(start as int, i + 1) =~= Seq::<char>::empty());
            assert(r@.map_values(|l: String| l@).push(s@.subrange(start as int, i + 1))
                =~= split_lines_spec(p));
        } else {
            push_char(&mut line, c);
            assert(s@.subrange(start as int, i + 1) =~= s@.subrange(start as int, i as int).push(
                c,
            ));
            assert(before.push(s@.subrange(start as int, i + 1)) =~= split_lines_spec(p));
        }
        i = i + 1;
    }
    let ghost before = r@.map_values(|l: String| l@);
    r.push(line);
    assert(r@.map_values(|l: String| l@) =~= before.push(s@.subrange(start as int, n as int)));
    assert(s@.subrange(0, n as int) == s@);
    r
}

/// The line diff of `a` and `b`: one entry per line, each tagged `Unchanged`,
/// `Removed` (only in `a`) or `Added` (only in `b`). The same two texts always
/// give the same diff; dropping the `Added` lines and joining the rest with
/// newlines gives back `a`, and dropping the `Removed` lines gives back `b`.
pub fn compute_diff(a: &String, b: &String) -> (r: Vec<DiffLine>)
    ensures
        pieces(r@) == diff_spec(a@, b@),
        join_lines(side(pieces(r@), DiffKind::Added)) == a@,
        join_lines(side(pieces(r@), DiffKind::Removed)) == b@,
        has_change(pieces(r@)) <==> a@ != b@,
{
    let chunks = changeset(a, b);
    let ghost ps = pieces(chunks@);
    let mut r: Vec<DiffLine> = Vec::new();
    let mut i: usize = 0;
    while i < chunks.len()
        invariant
            ps == pieces(chunks@),
            i <= chunks@.len(),
            pieces(r@) == expand_lines(ps.subrange(0, i as int)),
        decreases chunks@.len() - i,
    {
        let kind = chunks[i].kind;
        let lines = split_lines(&chunks[i].text);
        let ghost done = pieces(r@);
        let ghost ls = lines@.map_values(|l: String| l@);
        let mut j: usize = 0;
        while j < lines.len()
            invariant
                ls == lines@.map_values(|l: String| l@),
                j <= lines@.len(),
                pieces(r@) == done + tag(ls, kind).subrange(0, j as int),
            decreases lines@.len() - j,
        {
            let ghost prev = pieces(r@);
            r.push(DiffLine { kind, text: lines[j].clone() });
            assert(pieces(r@) =~= prev.push((kind, ls[j as int])));
            assert(tag(ls, kind).subrange(0, j + 1) =~= tag(ls, kind).subrange(0, j as int).push(
                (kind, ls[j as int]),
            ));
            j = j + 1;
        }
        proof {
            let pre = ps.subrange(0, i + 1);
            assert(pre.drop_last() =~= ps.subrange(0, i as int));
            assert(pre.last() == (kind, chunks@[i as int].text@));
            assert(tag(ls, kind).subrange(0, j as int) =~= tag(ls, kind));
        }
        i = i + 1;
    }
    proof {
        assert(ps.subrange(0, i as int) =~= ps);
        lemma_expand_side(ps, DiffKind::Added);
        lemma_expand_side(ps, DiffKind::Removed);
        if a@ == b@ {
            assert(!has_change(ps));
            lemma_expand_unchanged(ps);
        }
        if !has_change(pieces(r@)) {
            lemma_sides_agree(pieces(r@));
        }
    }
    r
}

} // verus!
