//! Reduction of a list of watch roots, and what is known of its result.
//!
//! A root that lies under another root is covered by it. The reduction keeps
//! the topmost roots only, each once.

use crate::path::{components, is_under, related, starts_with};
use crate::search::{first_true, lemma_first_true, lemma_first_true_found};
use camino::Utf8PathBuf;
use vstd::prelude::*;

verus! {

/// For each kept root, whether it is related to `path`.
pub open spec fn related_hits(kept: Seq<Utf8PathBuf>, path: Utf8PathBuf) -> Seq<bool> {
    Seq::new(kept.len(), |i: int| related(kept[i], path))
}

/// The index of the first root in `kept` that is related to `path`, or the
/// length of `kept` when there is none.
pub open spec fn first_related(kept: Seq<Utf8PathBuf>, path: Utf8PathBuf) -> int {
    first_true(related_hits(kept, path))
}

/// The roots of the list that do not lie under `path`, in their order.
pub open spec fn outside(roots: Seq<Utf8PathBuf>, path: Utf8PathBuf) -> Seq<Utf8PathBuf>
    decreases roots.len(),
{
    if roots.len() == 0 {
        Seq::empty()
    } else if is_under(roots.last(), path) {
        outside(roots.drop_last(), path)
    } else {
        outside(roots.drop_last(), path).push(roots.last())
    }
}

/// What one more root does to the roots kept so far. Where no kept root is
/// related to it, it is appended. Where the first kept root related to it
/// lies under it, it takes the place of that root, and every later kept
/// root under it is removed. Else it lies under a kept root and is dropped.
pub open spec fn absorb(kept: Seq<Utf8PathBuf>, path: Utf8PathBuf) -> Seq<Utf8PathBuf> {
    let i = first_related(kept, path);
    if i >= kept.len() {
        kept.push(path)
    } else if is_under(kept[i], path) {
        kept.take(i).push(path) + outside(kept.skip(i + 1), path)
    } else {
        kept
    }
}

/// The roots left after every path of `paths` has been absorbed in turn.
pub open spec fn reduce_roots(paths: Seq<Utf8PathBuf>) -> Seq<Utf8PathBuf>
    decreases paths.len(),
{
    if paths.len() == 0 {
        Seq::empty()
    } else {
        absorb(reduce_roots(paths.drop_last()), paths.last())
    }
}

/// A location with the given components lies under one of the roots.
pub open spec fn in_scope(roots: Seq<Utf8PathBuf>, location: Seq<Seq<char>>) -> bool {
    exists|i: int| 0 <= i < roots.len() && components(#[trigger] roots[i]).is_prefix_of(location)
}

/// No root lies under another root of the list, nor equals one.
pub open spec fn nested_free(roots: Seq<Utf8PathBuf>) -> bool {
    forall|i: int, j: int|
        0 <= i < roots.len() && 0 <= j < roots.len() && i != j ==> !is_under(
            #[trigger] roots[i],
            #[trigger] roots[j],
        )
}

/// Some root of the list has exactly these components.
pub open spec fn names(roots: Seq<Utf8PathBuf>, location: Seq<Seq<char>>) -> bool {
    exists|i: int| 0 <= i < roots.len() && components(#[trigger] roots[i]) == location
}

/// The location is named by the list and no root of the list lies strictly
/// above it.
pub open spec fn is_top(roots: Seq<Utf8PathBuf>, location: Seq<Seq<char>>) -> bool {
    names(roots, location) && forall|i: int|
        0 <= i < roots.len() && components(#[trigger] roots[i]).is_prefix_of(location)
            ==> components(roots[i]) == location
}

/// `first_related` is the one index below which no root is related to `path`
/// and at which, if it is an index at all, the root is related to it.
pub proof fn lemma_first_related(kept: Seq<Utf8PathBuf>, path: Utf8PathBuf, i: int)
    requires
        0 <= i <= kept.len(),
        forall|j: int| 0 <= j < i ==> !related(#[trigger] kept[j], path),
        i < kept.len() ==> related(kept[i], path),
    ensures
        first_related(kept, path) == i,
{
    lemma_first_true(related_hits(kept, path), i);
}

/// What `first_related` returns: an index up to the length, with no related
/// root before it and a related root at it.
pub proof fn lemma_first_related_found(kept: Seq<Utf8PathBuf>, path: Utf8PathBuf)
    ensures
        0 <= first_related(kept, path) <= kept.len(),
        forall|j: int| 0 <= j < first_related(kept, path) ==> !related(#[trigger] kept[j], path),
        first_related(kept, path) < kept.len() ==> related(
            kept[first_related(kept, path)],
            path,
        ),
{
    lemma_first_true_found(related_hits(kept, path));
    assert forall|j: int| 0 <= j < first_related(kept, path) implies !related(
        #[trigger] kept[j],
        path,
    ) by {
        assert(!related_hits(kept, path)[j]);
    }
}

/// Lying under is transitive.
pub proof fn lemma_under_transitive(a: Utf8PathBuf, b: Utf8PathBuf, c: Utf8PathBuf)
    requires
        is_under(a, b),
        is_under(b, c),
    ensures
        is_under(a, c),
{
    lemma_prefix_transitive(components(c), components(b), components(a));
}

proof fn lemma_prefix_transitive(x: Seq<Seq<char>>, y: Seq<Seq<char>>, z: Seq<Seq<char>>)
    requires
        x.is_prefix_of(y),
        y.is_prefix_of(z),
    ensures
        x.is_prefix_of(z),
{
    assert(x =~= z.subrange(0, x.len() as int));
}

/// Two paths above the same third path are related.
pub proof fn lemma_common_descendant(a: Utf8PathBuf, b: Utf8PathBuf, below: Utf8PathBuf)
    requires
        is_under(below, a),
        is_under(below, b),
    ensures
        related(a, b),
{
    let x = components(a);
    let y = components(b);
    if x.len() <= y.len() {
        assert(x =~= y.subrange(0, x.len() as int));
    } else {
        assert(y =~= x.subrange(0, y.len() as int));
    }
}

/// What `outside` keeps: every root that does not lie under `path` and no
/// other, each taken from the list.
pub proof fn lemma_outside_members(roots: Seq<Utf8PathBuf>, path: Utf8PathBuf)
    ensures
        outside(roots, path).len() <= roots.len(),
        forall|j: int|
            0 <= j < outside(roots, path).len() ==> roots.contains(
                #[trigger] outside(roots, path)[j],
            ) && !is_under(outside(roots, path)[j], path),
        forall|i: int|
            0 <= i < roots.len() && !is_under(#[trigger] roots[i], path) ==> outside(
                roots,
                path,
            ).contains(roots[i]),
    decreases roots.len(),
{
    if roots.len() > 0 {
        let front = roots.drop_last();
        let last = roots.last();
        let kept = outside(roots, path);
        lemma_outside_members(front, path);
        assert forall|j: int| 0 <= j < kept.len() implies roots.contains(#[trigger] kept[j])
            && !is_under(kept[j], path) by {
            if j < outside(front, path).len() {
                let x = outside(front, path)[j];
                assert(kept[j] == x);
                assert(front.contains(x));
                let m = choose|m: int| 0 <= m < front.len() && front[m] == x;
                assert(roots[m] == x);
            } else {
                assert(kept[j] == last);
                assert(roots[roots.len() - 1] == last);
            }
        }
        assert forall|i: int| 0 <= i < roots.len() && !is_under(
            #[trigger] roots[i],
            path,
        ) implies kept.contains(roots[i]) by {
            if i < front.len() {
                assert(front[i] == roots[i]);
                assert(outside(front, path).contains(roots[i]));
                let m = choose|m: int|
                    0 <= m < outside(front, path).len() && outside(front, path)[m] == roots[i];
                assert(kept[m] == roots[i]);
            } else {
                assert(kept[kept.len() - 1] == roots[i]);
            }
        }
    }
}

/// `outside` keeps the order: two roots that it keeps stand in the list in
/// the same order, at two places.
pub proof fn lemma_outside_order(roots: Seq<Utf8PathBuf>, path: Utf8PathBuf, a: int, b: int) -> (at: (
    int,
    int,
))
    requires
        0 <= a < b < outside(roots, path).len(),
    ensures
        0 <= at.0 < at.1 < roots.len(),
        roots[at.0] == outside(roots, path)[a],
        roots[at.1] == outside(roots, path)[b],
    decreases roots.len(),
{
    let front = roots.drop_last();
    let last = roots.last();
    if !is_under(last, path) && b == outside(front, path).len() {
        lemma_outside_members(front, path);
        let x = outside(front, path)[a];
        assert(front.contains(x));
        let m = choose|m: int| 0 <= m < front.len() && front[m] == x;
        assert(roots[m] == x);
        (m, roots.len() - 1)
    } else {
        let at = lemma_outside_order(front, path, a, b);
        assert(roots[at.0] == front[at.0]);
        assert(roots[at.1] == front[at.1]);
        at
    }
}

/// Absorbing a root adds what lies under it to the scope, and nothing else.
pub proof fn lemma_absorb_scope(kept: Seq<Utf8PathBuf>, path: Utf8PathBuf, location: Seq<Seq<char>>)
    ensures
        in_scope(absorb(kept, path), location) == (in_scope(kept, location) || components(
            path,
        ).is_prefix_of(location)),
{
    lemma_first_related_found(kept, path);
    let i = first_related(kept, path);
    let next = absorb(kept, path);
    let rest = kept.skip(i + 1);
    if i < kept.len() && is_under(kept[i], path) {
        lemma_outside_members(rest, path);
        let out = outside(rest, path);
        assert(next[i] == path);
        if in_scope(next, location) {
            let j = choose|j: int|
                0 <= j < next.len() && components(#[trigger] next[j]).is_prefix_of(location);
            if j < i {
                assert(next[j] == kept[j]);
            } else if j > i {
                assert(next[j] == out[j - i - 1]);
                assert(rest.contains(out[j - i - 1]));
                let m = choose|m: int| 0 <= m < rest.len() && rest[m] == out[j - i - 1];
                assert(kept[i + 1 + m] == next[j]);
            }
        }
        if in_scope(kept, location) {
            let j = choose|j: int|
                0 <= j < kept.len() && components(#[trigger] kept[j]).is_prefix_of(location);
            if j < i {
                assert(next[j] == kept[j]);
            } else if is_under(kept[j], path) {
                lemma_prefix_transitive(components(path), components(kept[j]), location);
                assert(components(next[i]).is_prefix_of(location));
            } else {
                assert(rest[j - i - 1] == kept[j]);
                assert(out.contains(kept[j]));
                let m = choose|m: int| 0 <= m < out.len() && out[m] == kept[j];
                assert(next[i + 1 + m] == kept[j]);
            }
        }
        if components(path).is_prefix_of(location) {
            assert(components(next[i]).is_prefix_of(location));
        }
    } else if i < kept.len() {
        if components(path).is_prefix_of(location) {
            lemma_prefix_transitive(components(kept[i]), components(path), location);
            assert(components(next[i]).is_prefix_of(location));
        }
    } else {
        if in_scope(next, location) {
            let j = choose|j: int|
                0 <= j < next.len() && components(#[trigger] next[j]).is_prefix_of(location);
            if j < kept.len() {
                assert(next[j] == kept[j]);
            }
        }
        if in_scope(kept, location) {
            let j = choose|j: int|
                0 <= j < kept.len() && components(#[trigger] kept[j]).is_prefix_of(location);
            assert(next[j] == kept[j]);
        }
        if components(path).is_prefix_of(location) {
            assert(next[kept.len() as int] == path);
        }
    }
}

/// Every root left by absorbing `path` is `path` or was kept before.
pub proof fn lemma_absorb_picks(kept: Seq<Utf8PathBuf>, path: Utf8PathBuf)
    ensures
        absorb(kept, path).len() <= kept.len() + 1,
        forall|j: int|
            0 <= j < absorb(kept, path).len() ==> (#[trigger] absorb(kept, path)[j]) == path
                || kept.contains(absorb(kept, path)[j]),
{
    lemma_first_related_found(kept, path);
    let i = first_related(kept, path);
    let next = absorb(kept, path);
    let rest = kept.skip(i + 1);
    if i < kept.len() && is_under(kept[i], path) {
        lemma_outside_members(rest, path);
        let out = outside(rest, path);
        assert forall|j: int| 0 <= j < next.len() implies (#[trigger] next[j]) == path
            || kept.contains(next[j]) by {
            if j < i {
                assert(next[j] == kept[j]);
            } else if j > i {
                assert(next[j] == out[j - i - 1]);
                assert(rest.contains(out[j - i - 1]));
                let m = choose|m: int| 0 <= m < rest.len() && rest[m] == out[j - i - 1];
                assert(kept[i + 1 + m] == next[j]);
            }
        }
    } else if i >= kept.len() {
        assert forall|j: int| 0 <= j < next.len() implies (#[trigger] next[j]) == path
            || kept.contains(next[j]) by {
            if j < kept.len() {
                assert(next[j] == kept[j]);
            }
        }
    }
}

/// Absorbing a root into roots none of which lies under another leaves
/// roots none of which lies under another.
pub proof fn lemma_absorb_nested_free(kept: Seq<Utf8PathBuf>, path: Utf8PathBuf)
    requires
        nested_free(kept),
    ensures
        nested_free(absorb(kept, path)),
{
    lemma_first_related_found(kept, path);
    let i = first_related(kept, path);
    let next = absorb(kept, path);
    let rest = kept.skip(i + 1);
    if i >= kept.len() {
        assert forall|x: int, y: int|
            0 <= x < next.len() && 0 <= y < next.len() && x != y implies !is_under(
            #[trigger] next[x],
            #[trigger] next[y],
        ) by {
            if x < kept.len() && y < kept.len() {
                assert(!is_under(kept[x], kept[y]));
            } else if x < kept.len() {
                assert(!related(kept[x], path));
            } else {
                assert(!related(kept[y], path));
            }
        }
    } else if is_under(kept[i], path) {
        lemma_outside_members(rest, path);
        let out = outside(rest, path);
        // where a root of `next` stands in `kept`, for all but the new one
        let place = |x: int|
            if x < i {
                x
            } else {
                i + 1 + choose|m: int| 0 <= m < rest.len() && rest[m] == out[x - i - 1]
            };
        assert forall|x: int| 0 <= x < next.len() && x != i implies 0 <= place(x) < kept.len()
            && place(x) != i && kept[place(x)] == #[trigger] next[x] && !related(
            next[x],
            path,
        ) by {
            if x < i {
                assert(next[x] == kept[x]);
            } else {
                assert(next[x] == out[x - i - 1]);
                assert(rest.contains(out[x - i - 1]));
                let m = choose|m: int| 0 <= m < rest.len() && rest[m] == out[x - i - 1];
                assert(kept[i + 1 + m] == next[x]);
                if is_under(path, next[x]) {
                    lemma_under_transitive(kept[i], path, next[x]);
                    assert(!is_under(kept[i], kept[i + 1 + m]));
                }
            }
        }
        assert forall|x: int, y: int|
            0 <= x < next.len() && 0 <= y < next.len() && x != y implies !is_under(
            #[trigger] next[x],
            #[trigger] next[y],
        ) by {
            if x == i || y == i {
                assert(next[i] == path);
            } else if x < i || y < i {
                assert(place(x) != place(y));
                assert(!is_under(kept[place(x)], kept[place(y)]));
            } else {
                let a = x - i - 1;
                let b = y - i - 1;
                assert(next[x] == out[a]);
                assert(next[y] == out[b]);
                if a < b {
                    let at = lemma_outside_order(rest, path, a, b);
                    assert(!is_under(kept[i + 1 + at.0], kept[i + 1 + at.1]));
                } else {
                    let at = lemma_outside_order(rest, path, b, a);
                    assert(!is_under(kept[i + 1 + at.1], kept[i + 1 + at.0]));
                }
            }
        }
    }
}

/// Roots none of which lies under another are left as they are when one
/// that lies under one of them, or is related to none, is absorbed last.
proof fn lemma_prefix_nested_free(roots: Seq<Utf8PathBuf>)
    requires
        nested_free(roots),
        roots.len() > 0,
    ensures
        nested_free(roots.drop_last()),
        first_related(roots.drop_last(), roots.last()) == roots.len() - 1,
{
    let front = roots.drop_last();
    assert forall|i: int, j: int|
        0 <= i < front.len() && 0 <= j < front.len() && i != j implies !is_under(
        #[trigger] front[i],
        #[trigger] front[j],
    ) by {
        assert(front[i] == roots[i]);
        assert(front[j] == roots[j]);
    }
    assert forall|j: int| 0 <= j < front.len() implies !related(
        #[trigger] front[j],
        roots.last(),
    ) by {
        assert(front[j] == roots[j]);
        assert(roots[roots.len() - 1] == roots.last());
        assert(!is_under(roots[j], roots[roots.len() - 1]));
        assert(!is_under(roots[roots.len() - 1], roots[j]));
    }
    lemma_first_related(front, roots.last(), front.len() as int);
}

/// The reduced roots cover exactly what the given roots cover: a location
/// lies under one of the reduced roots if and only if it lies under one of
/// the given ones.
pub proof fn lemma_reduce_keeps_scope(paths: Seq<Utf8PathBuf>, location: Seq<Seq<char>>)
    ensures
        in_scope(reduce_roots(paths), location) == in_scope(paths, location),
    decreases paths.len(),
{
    if paths.len() > 0 {
        let front = paths.drop_last();
        lemma_reduce_keeps_scope(front, location);
        lemma_absorb_scope(reduce_roots(front), paths.last(), location);
        if in_scope(paths, location) {
            let j = choose|j: int|
                0 <= j < paths.len() && components(#[trigger] paths[j]).is_prefix_of(location);
            if j < front.len() {
                assert(front[j] == paths[j]);
            }
        }
        if in_scope(front, location) {
            let j = choose|j: int|
                0 <= j < front.len() && components(#[trigger] front[j]).is_prefix_of(location);
            assert(front[j] == paths[j]);
        }
        if components(paths.last()).is_prefix_of(location) {
            assert(paths[paths.len() - 1] == paths.last());
        }
    }
}

/// Every reduced root is one of the given roots, and there are no more of
/// them than were given.
pub proof fn lemma_reduce_picks_given(paths: Seq<Utf8PathBuf>)
    ensures
        forall|j: int|
            0 <= j < reduce_roots(paths).len() ==> paths.contains(
                #[trigger] reduce_roots(paths)[j],
            ),
        reduce_roots(paths).len() <= paths.len(),
    decreases paths.len(),
{
    if paths.len() > 0 {
        let front = paths.drop_last();
        let kept = reduce_roots(front);
        lemma_reduce_picks_given(front);
        lemma_absorb_picks(kept, paths.last());
        let next = reduce_roots(paths);
        assert forall|j: int| 0 <= j < next.len() implies paths.contains(#[trigger] next[j]) by {
            if next[j] == paths.last() {
                assert(paths[paths.len() - 1] == paths.last());
            } else {
                assert(kept.contains(next[j]));
                let c = choose|c: int| 0 <= c < kept.len() && kept[c] == next[j];
                assert(front.contains(kept[c]));
                let m = choose|m: int| 0 <= m < front.len() && front[m] == kept[c];
                assert(paths[m] == front[m]);
            }
        }
    }
}

/// Among the reduced roots, none lies under another and none stands twice,
/// whatever roots were given and in whatever order.
pub proof fn lemma_reduce_nested_free(paths: Seq<Utf8PathBuf>)
    ensures
        nested_free(reduce_roots(paths)),
    decreases paths.len(),
{
    if paths.len() > 0 {
        lemma_reduce_nested_free(paths.drop_last());
        lemma_absorb_nested_free(reduce_roots(paths.drop_last()), paths.last());
    }
}

/// The reduced roots are the topmost of the given roots.
pub proof fn lemma_reduce_keeps_tops(paths: Seq<Utf8PathBuf>, location: Seq<Seq<char>>)
    ensures
        names(reduce_roots(paths), location) == is_top(paths, location),
{
    let kept = reduce_roots(paths);
    lemma_reduce_nested_free(paths);
    lemma_reduce_picks_given(paths);
    if names(kept, location) {
        let j = choose|j: int| 0 <= j < kept.len() && components(#[trigger] kept[j]) == location;
        assert(paths.contains(kept[j]));
        let at = choose|at: int| 0 <= at < paths.len() && paths[at] == kept[j];
        assert(components(paths[at]) == location);
        assert forall|i: int|
            0 <= i < paths.len() && components(#[trigger] paths[i]).is_prefix_of(
                location,
            ) implies components(paths[i]) == location by {
            let above = components(paths[i]);
            assert(above.is_prefix_of(above));
            assert(in_scope(paths, above));
            lemma_reduce_keeps_scope(paths, above);
            let c = choose|c: int|
                0 <= c < kept.len() && components(#[trigger] kept[c]).is_prefix_of(above);
            lemma_under_transitive(kept[j], paths[i], kept[c]);
            assert(c == j);
            assert(above =~= location);
        }
    }
    if is_top(paths, location) {
        let at = choose|at: int|
            0 <= at < paths.len() && components(#[trigger] paths[at]) == location;
        assert(components(paths[at]).is_prefix_of(location));
        assert(in_scope(paths, location));
        lemma_reduce_keeps_scope(paths, location);
        let c = choose|c: int|
            0 <= c < kept.len() && components(#[trigger] kept[c]).is_prefix_of(location);
        assert(paths.contains(kept[c]));
        let i = choose|i: int| 0 <= i < paths.len() && paths[i] == kept[c];
        assert(components(paths[i]).is_prefix_of(location));
        assert(components(kept[c]) == location);
    }
}

/// The reduction does not depend on the order of the given roots, nor on
/// how often one is given: two lists that name the same locations are
/// reduced to roots that name the same locations.
pub proof fn lemma_reduce_order_free(
    paths: Seq<Utf8PathBuf>,
    others: Seq<Utf8PathBuf>,
    location: Seq<Seq<char>>,
)
    requires
        forall|l: Seq<Seq<char>>| names(paths, l) == names(others, l),
    ensures
        names(reduce_roots(paths), location) == names(reduce_roots(others), location),
{
    lemma_reduce_keeps_tops(paths, location);
    lemma_reduce_keeps_tops(others, location);
    if is_top(paths, location) {
        lemma_top_by_names(paths, others, location);
    }
    if is_top(others, location) {
        lemma_top_by_names(others, paths, location);
    }
}

proof fn lemma_top_by_names(
    paths: Seq<Utf8PathBuf>,
    others: Seq<Utf8PathBuf>,
    location: Seq<Seq<char>>,
)
    requires
        forall|l: Seq<Seq<char>>| names(paths, l) == names(others, l),
        is_top(paths, location),
    ensures
        is_top(others, location),
{
    assert(names(others, location));
    assert forall|i: int|
        0 <= i < others.len() && components(#[trigger] others[i]).is_prefix_of(
            location,
        ) implies components(others[i]) == location by {
        let above = components(others[i]);
        assert(names(others, above));
        assert(names(paths, above));
        let k = choose|k: int| 0 <= k < paths.len() && components(#[trigger] paths[k]) == above;
        assert(components(paths[k]).is_prefix_of(location));
    }
}

/// Roots none of which lies under another are reduced to themselves: what
/// the reduction returns, it leaves as it is.
pub proof fn lemma_reduce_fixed(roots: Seq<Utf8PathBuf>)
    requires
        nested_free(roots),
    ensures
        reduce_roots(roots) == roots,
    decreases roots.len(),
{
    if roots.len() > 0 {
        lemma_prefix_nested_free(roots);
        lemma_reduce_fixed(roots.drop_last());
        assert(roots.drop_last().push(roots.last()) =~= roots);
    } else {
        assert(reduce_roots(roots) =~= roots);
    }
}

/// Removes the roots after the place `at` that lie under the root there.
fn drop_under(kept: &mut Vec<Utf8PathBuf>, at: usize)
    requires
        at < old(kept).len(),
    ensures
        final(kept)@ == old(kept)@.take(at + 1) + outside(
            old(kept)@.skip(at + 1),
            old(kept)@[at as int],
        ),
{
    let ghost before = kept@;
    let ghost path = kept@[at as int];
    let ghost mut k: int = at + 1;
    let mut j: usize = at + 1;
    proof {
        assert(before.subrange(at + 1, k) =~= Seq::<Utf8PathBuf>::empty());
        assert(kept@.take(j as int) =~= before.take(at + 1) + outside(
            before.subrange(at + 1, k),
            path,
        ));
        assert(kept@.skip(j as int) =~= before.skip(k));
    }
    while j < kept.len()
        invariant
            at < j <= kept.len(),
            j <= k <= before.len(),
            at < before.len(),
            path == before[at as int],
            kept@.take(j as int) == before.take(at + 1) + outside(
                before.subrange(at + 1, k),
                path,
            ),
            kept@.skip(j as int) == before.skip(k),
        decreases kept.len() - j,
    {
        let ghost now = kept@;
        proof {
            assert(now.skip(j as int).len() == before.skip(k).len());
            assert(now[j as int] == now.skip(j as int)[0]);
            assert(before[k] == before.skip(k)[0]);
            assert(now[at as int] == now.take(j as int)[at as int]);
            assert(before.subrange(at + 1, k + 1).drop_last() =~= before.subrange(at + 1, k));
            assert(before.subrange(at + 1, k + 1).last() == before[k]);
        }
        if starts_with(&kept[j], &kept[at]) {
            let _ = kept.remove(j);
            proof {
                assert(kept@.take(j as int) =~= now.take(j as int));
                assert(kept@.skip(j as int) =~= now.skip(j as int).skip(1));
                assert(before.skip(k).skip(1) =~= before.skip(k + 1));
                k = k + 1;
            }
        } else {
            proof {
                assert(now.take(j + 1) =~= now.take(j as int).push(now[j as int]));
                assert(now.skip(j + 1) =~= now.skip(j as int).skip(1));
                assert(before.skip(k).skip(1) =~= before.skip(k + 1));
                k = k + 1;
            }
            j += 1;
        }
    }
    proof {
        assert(kept@.take(j as int) =~= kept@);
        assert(before.subrange(at + 1, k) =~= before.skip(at + 1));
    }
}

fn absorb_root(kept: &mut Vec<Utf8PathBuf>, path: Utf8PathBuf)
    ensures
        final(kept)@ == absorb(old(kept)@, path),
{
    let mut i: usize = 0;
    while i < kept.len()
        invariant
            0 <= i <= kept.len(),
            kept@ == old(kept)@,
            forall|j: int| 0 <= j < i ==> !related(#[trigger] kept@[j], path),
        decreases kept.len() - i,
    {
        if starts_with(&kept[i], &path) {
            proof {
                lemma_first_related(kept@, path, i as int);
            }
            kept[i] = path;
            proof {
                assert(kept@.take(i + 1) =~= old(kept)@.take(i as int).push(path));
                assert(kept@.skip(i + 1) =~= old(kept)@.skip(i + 1));
            }
            drop_under(kept, i);
            return ;
        }
        if starts_with(&path, &kept[i]) {
            proof {
                lemma_first_related(kept@, path, i as int);
            }
            return ;
        }
        i += 1;
    }
    proof {
        lemma_first_related(kept@, path, i as int);
    }
    kept.push(path);
}

/// Reduces a list of watch roots to the topmost of them: a root that lies
/// under another one is covered by it and need not be watched itself.
///
/// Whatever roots are given and in whatever order, the result covers
/// exactly what they cover, holds only roots that were given, and holds
/// none of them twice or beneath another. The roots are taken in order: a
/// root stands where the first root that it covers stood. Roots that are
/// reduced already are returned as they are.
pub fn remove_nested(paths: Vec<Utf8PathBuf>) -> (kept: Vec<Utf8PathBuf>)
    ensures
        kept@ == reduce_roots(paths@),
        nested_free(kept@),
        forall|location: Seq<Seq<char>>| in_scope(kept@, location) == in_scope(paths@, location),
        forall|j: int| 0 <= j < kept@.len() ==> paths@.contains(#[trigger] kept@[j]),
        forall|location: Seq<Seq<char>>| names(kept@, location) == is_top(paths@, location),
        nested_free(paths@) ==> kept@ == paths@,
{
    let ghost all = paths@;
    let mut kept: Vec<Utf8PathBuf> = Vec::new();
    for path in it: paths.into_iter()
        invariant
            it.seq() == all,
            kept@ == reduce_roots(all.take(it.index() as int)),
    {
        proof {
            let k = it.index() as int;
            assert(all.take(k + 1).drop_last() == all.take(k));
            assert(all.take(k + 1).last() == path);
        }
        absorb_root(&mut kept, path);
    }
    proof {
        assert(all.take(all.len() as int) == all);
        lemma_reduce_nested_free(all);
        lemma_reduce_picks_given(all);
        if nested_free(all) {
            lemma_reduce_fixed(all);
        }
        assert forall|location: Seq<Seq<char>>|
            in_scope(kept@, location) == in_scope(all, location) by {
            lemma_reduce_keeps_scope(all, location);
        }
        assert forall|location: Seq<Seq<char>>|
            names(kept@, location) == is_top(all, location) by {
            lemma_reduce_keeps_tops(all, location);
        }
    }
    kept
}

} // verus!
