//! Facts about sequences that several modules share.

use vstd::prelude::*;

verus! {

/// The elements of `s` whose index satisfies `keep`, in their order.
pub open spec fn keep_where<T>(s: Seq<T>, keep: spec_fn(int) -> bool) -> Seq<T>
    decreases s.len(),
{
    if s.len() == 0 {
        Seq::empty()
    } else {
        let front = keep_where(s.drop_last(), keep);
        if keep(s.len() - 1) {
            front.push(s.last())
        } else {
            front
        }
    }
}

/// `keep_where` picks exactly the kept indices, in increasing order. The
/// result names, for each place of the outcome, the index it came from.
pub proof fn lemma_keep_where_indices<T>(s: Seq<T>, keep: spec_fn(int) -> bool) -> (idx: Seq<int>)
    ensures
        idx.len() == keep_where(s, keep).len(),
        forall|k: int|
            0 <= k < idx.len() ==> 0 <= #[trigger] idx[k] < s.len() && keep(idx[k]) && keep_where(
                s,
                keep,
            )[k] == s[idx[k]],
        forall|k: int, l: int| 0 <= k < l < idx.len() ==> #[trigger] idx[k] < #[trigger] idx[l],
        forall|j: int|
            0 <= j < s.len() && #[trigger] keep(j) ==> exists|k: int|
                0 <= k < idx.len() && #[trigger] idx[k] == j,
    decreases s.len(),
{
    if s.len() == 0 {
        Seq::empty()
    } else {
        let front = lemma_keep_where_indices(s.drop_last(), keep);
        let last = s.len() - 1;
        if keep(last) {
            let idx = front.push(last);
            assert forall|j: int| 0 <= j < s.len() && #[trigger] keep(j) implies exists|k: int|
                0 <= k < idx.len() && #[trigger] idx[k] == j by {
                if j == last {
                    assert(idx[front.len() as int] == j);
                } else {
                    let k = choose|k: int| 0 <= k < front.len() && #[trigger] front[k] == j;
                    assert(idx[k] == j);
                }
            }
            idx
        } else {
            front
        }
    }
}

/// `keep_where` over a prefix that grows by one element.
pub proof fn lemma_keep_where_step<T>(s: Seq<T>, keep: spec_fn(int) -> bool, i: int)
    requires
        0 <= i < s.len(),
    ensures
        keep_where(s.take(i + 1), keep) == if keep(i) {
            keep_where(s.take(i), keep).push(s[i])
        } else {
            keep_where(s.take(i), keep)
        },
{
    assert(s.take(i + 1).drop_last() =~= s.take(i));
}

/// Nothing is kept where no index satisfies `keep`; everything where all do.
pub proof fn lemma_keep_where_all<T>(s: Seq<T>, keep: spec_fn(int) -> bool)
    ensures
        (forall|j: int| 0 <= j < s.len() ==> #[trigger] keep(j)) ==> keep_where(s, keep) == s,
        (forall|j: int| 0 <= j < s.len() ==> !#[trigger] keep(j)) ==> keep_where(s, keep)
            == Seq::<T>::empty(),
        keep_where(s, keep).len() <= s.len(),
    decreases s.len(),
{
    if s.len() > 0 {
        lemma_keep_where_all(s.drop_last(), keep);
        if forall|j: int| 0 <= j < s.len() ==> #[trigger] keep(j) {
            assert(s.drop_last().push(s.last()) =~= s);
        }
    }
}


/// What `read` makes of the first `n` items, in order, leaving out the items
/// of which it makes nothing.
pub open spec fn collect_some<A, B>(items: Seq<A>, read: spec_fn(A) -> Option<B>, n: nat) -> Seq<B>
    decreases n,
{
    if n == 0 {
        Seq::empty()
    } else {
        let before = collect_some(items, read, (n - 1) as nat);
        match read(items[n - 1]) {
            Some(found) => before.push(found),
            None => before,
        }
    }
}

/// What `read` makes of all the items.
pub open spec fn collect_all<A, B>(items: Seq<A>, read: spec_fn(A) -> Option<B>) -> Seq<B> {
    collect_some(items, read, items.len())
}


/// The first place of `list` whose item satisfies `hit`, if there is one.
pub open spec fn first_where<T>(list: Seq<T>, hit: spec_fn(T) -> bool) -> Option<int>
    decreases list.len(),
{
    if list.len() == 0 {
        None
    } else if hit(list[0]) {
        Some(0)
    } else {
        match first_where(list.drop_first(), hit) {
            Some(i) => Some(i + 1),
            None => None,
        }
    }
}

/// `first_where` finds the least place that satisfies `hit`, and finds none
/// only where no place does.
pub proof fn lemma_first_where<T>(list: Seq<T>, hit: spec_fn(T) -> bool)
    ensures
        match first_where(list, hit) {
            Some(i) => 0 <= i < list.len() && hit(list[i]) && forall|j: int|
                0 <= j < i ==> !hit(#[trigger] list[j]),
            None => forall|j: int| 0 <= j < list.len() ==> !hit(#[trigger] list[j]),
        },
    decreases list.len(),
{
    if list.len() > 0 && !hit(list[0]) {
        let rest = list.drop_first();
        lemma_first_where(rest, hit);
        match first_where(rest, hit) {
            Some(i) => {
                assert forall|j: int| 0 <= j < i + 1 implies !hit(#[trigger] list[j]) by {
                    if j > 0 {
                        assert(list[j] == rest[j - 1]);
                    }
                }
            },
            None => {
                assert forall|j: int| 0 <= j < list.len() implies !hit(#[trigger] list[j]) by {
                    if j > 0 {
                        assert(list[j] == rest[j - 1]);
                    }
                }
            },
        }
    }
}

/// A place that satisfies `hit` and has none before it that does is the one
/// that `first_where` finds.
pub proof fn lemma_first_where_is<T>(list: Seq<T>, hit: spec_fn(T) -> bool, at: int)
    requires
        0 <= at < list.len(),
        hit(list[at]),
        forall|j: int| 0 <= j < at ==> !hit(#[trigger] list[j]),
    ensures
        first_where(list, hit) == Some(at),
{
    lemma_first_where(list, hit);
}

/// Where no place satisfies `hit`, `first_where` finds none.
pub proof fn lemma_first_where_none<T>(list: Seq<T>, hit: spec_fn(T) -> bool)
    requires
        forall|j: int| 0 <= j < list.len() ==> !hit(#[trigger] list[j]),
    ensures
        first_where(list, hit) is None,
{
    lemma_first_where(list, hit);
}


/// Taking one item out of a sequence without duplicates takes exactly that
/// item out of its set, and leaves no duplicates.
pub proof fn lemma_remove_unique<T>(list: Seq<T>, at: int)
    requires
        list.no_duplicates(),
        0 <= at < list.len(),
    ensures
        list.remove(at).no_duplicates(),
        list.remove(at).to_set() == list.to_set().remove(list[at]),
{
    let rest = list.remove(at);
    list.remove_ensures(at);
    assert forall|i: int, j: int|
        0 <= i < rest.len() && 0 <= j < rest.len() && i != j implies rest[i] != rest[j] by {
        let a = if i < at {
            i
        } else {
            i + 1
        };
        let b = if j < at {
            j
        } else {
            j + 1
        };
        assert(rest[i] == list[a] && rest[j] == list[b]);
    }
    assert forall|x: T| rest.to_set().contains(x) <==> list.to_set().remove(list[at]).contains(
        x,
    ) by {
        if rest.contains(x) {
            let i = choose|i: int| 0 <= i < rest.len() && rest[i] == x;
            let a = if i < at {
                i
            } else {
                i + 1
            };
            assert(rest[i] == list[a]);
            assert(list.contains(x));
        }
        if list.contains(x) && x != list[at] {
            let a = choose|a: int| 0 <= a < list.len() && list[a] == x;
            let i = if a < at {
                a
            } else {
                a - 1
            };
            assert(rest[i] == x);
        }
    }
    assert(rest.to_set() =~= list.to_set().remove(list[at]));
}

/// Putting a new item behind a sequence without duplicates puts it into its
/// set, and leaves no duplicates.
pub proof fn lemma_push_unique<T>(list: Seq<T>, item: T)
    requires
        list.no_duplicates(),
        !list.contains(item),
    ensures
        list.push(item).no_duplicates(),
        list.push(item).to_set() == list.to_set().insert(item),
{
    let more = list.push(item);
    assert forall|i: int, j: int|
        0 <= i < more.len() && 0 <= j < more.len() && i != j implies more[i] != more[j] by {
        if i < list.len() {
            assert(list.contains(more[i]));
        }
        if j < list.len() {
            assert(list.contains(more[j]));
        }
    }
    list.lemma_push_to_set_commute(item);
}

} // verus!
