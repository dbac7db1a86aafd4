use vstd::prelude::*;

use crate::const_array::kept;
use crate::drain::{end_index, start_index, Bound};

verus! {

/// Popping right after pushing `x` gives back `x` and the array as it was
/// before the push (`push` ensures `@.push(x)`, `pop` hands out `last()`
/// and leaves `drop_last()`).
pub proof fn law_pop_undoes_push<T>(s: Seq<T>, x: T)
    ensures
        s.push(x).len() > 0,
        s.push(x).last() == x,
        s.push(x).drop_last() == s,
{
    assert(s.push(x).drop_last() =~= s);
}

/// Removing at `i` right after inserting `x` at `i` gives back `x` and the
/// array as it was before the insertion.
pub proof fn law_remove_undoes_insert<T>(s: Seq<T>, i: int, x: T)
    requires
        0 <= i <= s.len(),
    ensures
        s.insert(i, x)[i] == x,
        s.insert(i, x).remove(i) == s,
{
    assert(s.insert(i, x).remove(i) =~= s);
}

/// What a drain leaves in the array, what it hands out and the tail it
/// holds (which `finish` puts back) make up the array as it was: draining
/// loses and invents no element.
pub proof fn law_drain_reassembles<T>(s: Seq<T>, start: int, end: int)
    requires
        0 <= start <= end <= s.len(),
    ensures
        s.subrange(0, start) + s.subrange(start, end) + s.subrange(end, s.len() as int) == s,
        s.subrange(start, end).len() + (s.subrange(0, start) + s.subrange(
            end,
            s.len() as int,
        )).len() == s.len(),
{
    assert(s.subrange(0, start) + s.subrange(start, end) + s.subrange(end, s.len() as int) =~= s);
}

/// A drain made from `s[i..j]` holds, after `f` elements were handed out
/// from the front and `b` from the back, exactly `s[i + f..j - b]`: the
/// next element from the front is `s[i + f]` and leaves `s[i + f + 1..j - b]`,
/// the next from the back is `s[j - b - 1]` and leaves `s[i + f..j - b - 1]`.
/// With `drain_range`'s `ensures` (which gives `f == b == 0`) and those of
/// `next` and `next_back`, this carries over every sequence of calls.
pub proof fn law_drain_hands_out_the_middle<T>(s: Seq<T>, i: int, j: int, f: int, b: int)
    requires
        0 <= i <= j <= s.len(),
        0 <= f,
        0 <= b,
        f + b < j - i,
    ensures
        s.subrange(i, j).subrange(f, j - i - b) == s.subrange(i + f, j - b),
        s.subrange(i + f, j - b)[0] == s[i + f],
        s.subrange(i + f, j - b).drop_first() == s.subrange(i + f + 1, j - b),
        s.subrange(i + f, j - b).last() == s[j - b - 1],
        s.subrange(i + f, j - b).drop_last() == s.subrange(i + f, j - b - 1),
{
    assert(s.subrange(i, j).subrange(f, j - i - b) =~= s.subrange(i + f, j - b));
    assert(s.subrange(i + f, j - b).drop_first() =~= s.subrange(i + f + 1, j - b));
    assert(s.subrange(i + f, j - b).drop_last() =~= s.subrange(i + f, j - b - 1));
}

/// The bounds of a range select the indices a Rust range expression does:
/// an included start `i` starts the range at `i` and an excluded one at
/// `i + 1`; an excluded end `j` stops before `j` and an included one after
/// it, whatever the length; an unbounded start is `0` and an unbounded end
/// is the length. So `drain(Included(i), Excluded(j))` on `s` hands out
/// `s[i..j]`, `drain(Included(i), Included(j))` hands out `s[i..=j]`, and
/// `drain(Unbounded, Unbounded)` hands out all of `s`. One past
/// `usize::MAX` saturates, as `saturating_add` does.
pub proof fn law_bounds_select_the_range<T>(s: Seq<T>, i: usize, j: usize)
    ensures
        start_index(Bound::Included(i)) == i,
        i < usize::MAX ==> start_index(Bound::Excluded(i)) == i + 1,
        start_index(Bound::Excluded(usize::MAX)) == usize::MAX,
        start_index(Bound::Unbounded) == 0,
        end_index(Bound::Excluded(j), s.len() as int) == j,
        j < usize::MAX ==> end_index(Bound::Included(j), s.len() as int) == j + 1,
        end_index(Bound::Included(usize::MAX), s.len() as int) == usize::MAX,
        end_index(Bound::Unbounded, s.len() as int) == s.len(),
        i <= j <= s.len() ==> s.subrange(
            start_index(Bound::Included(i)),
            end_index(Bound::Excluded(j), s.len() as int),
        ) == s.subrange(i as int, j as int),
        i <= j < s.len() && j < usize::MAX ==> s.subrange(
            start_index(Bound::Included(i)),
            end_index(Bound::Included(j), s.len() as int),
        ) == s.subrange(i as int, j + 1),
        s.subrange(
            start_index(Bound::Unbounded),
            end_index(Bound::Unbounded, s.len() as int),
        ) == s,
        0 < i ==> start_index(Bound::Excluded((i - 1) as usize)) == start_index(
            Bound::Included(i),
        ),
        j < usize::MAX ==> end_index(Bound::Included(j), s.len() as int) == end_index(
            Bound::Excluded((j + 1) as usize),
            s.len() as int,
        ),
{
    assert(s.subrange(0, s.len() as int) =~= s);
}

/// `swap_remove` and `swap_pop` only reorder: the element handed out
/// together with those left are exactly the elements there were.
pub proof fn law_swap_remove_keeps_elements<T>(s: Seq<T>, i: int)
    requires
        0 <= i < s.len(),
    ensures
        s.update(i, s.last()).drop_last().to_multiset().insert(s[i]) == s.to_multiset(),
{
    let last = s.len() - 1;
    let r = s.update(i, s.last()).drop_last();
    if i == last {
        assert(r =~= s.drop_last());
        assert(s =~= s.drop_last().push(s[i]));
        s.drop_last().to_multiset_ensures();
        assert(s.drop_last().push(s[i]).to_multiset() =~= s.drop_last().to_multiset().insert(s[i]));
    } else {
        // s == r with position i holding s[i] again, plus s.last() at the end
        let a = s.drop_last();
        assert(a.update(i, s.last()) =~= r);
        assert(s =~= a.push(s.last()));
        a.to_multiset_ensures();
        r.to_multiset_ensures();
        vstd::seq_lib::lemma_multiset_commutative(a.subrange(0, i), a.subrange(i, a.len() as int));
        lemma_update_multiset(a, i, s.last());
        assert(s.to_multiset() =~= a.to_multiset().insert(s.last()));
    }
}

/// Replacing position `i` of `a` with `x` trades one occurrence of `a[i]`
/// for one of `x`.
proof fn lemma_update_multiset<T>(a: Seq<T>, i: int, x: T)
    requires
        0 <= i < a.len(),
    ensures
        a.update(i, x).to_multiset().insert(a[i]) == a.to_multiset().insert(x),
{
    let pre = a.subrange(0, i);
    let post = a.subrange(i + 1, a.len() as int);
    assert(a =~= pre + seq![a[i]] + post);
    assert(a.update(i, x) =~= pre + seq![x] + post);
    vstd::seq_lib::lemma_multiset_commutative(pre + seq![a[i]], post);
    vstd::seq_lib::lemma_multiset_commutative(pre, seq![a[i]]);
    vstd::seq_lib::lemma_multiset_commutative(pre + seq![x], post);
    vstd::seq_lib::lemma_multiset_commutative(pre, seq![x]);
    seq![a[i]].to_multiset_ensures();
    seq![x].to_multiset_ensures();
    Seq::<T>::empty().to_multiset_ensures();
    assert(seq![a[i]] =~= Seq::<T>::empty().push(a[i]));
    assert(seq![x] =~= Seq::<T>::empty().push(x));
    assert(a.update(i, x).to_multiset().insert(a[i]) =~= a.to_multiset().insert(x));
}

/// Two plain arrays with the same elements are the same array, so
/// `into_inner` of an array made by `from_array(a)` gives back `a` itself.
pub proof fn law_array_round_trip<T, const N: usize>(a: [T; N], b: [T; N])
    requires
        a@ == b@,
    ensures
        a == b,
{
    broadcast use vstd::array::axiom_array_ext_equal;

    assert(a =~= b);
}

/// When the predicate given to `retain` answers by a fixed rule `p`, what
/// stays is exactly the elements that satisfy `p`, in order.
pub proof fn law_retain_is_filter<T>(s: Seq<T>, keep: Seq<bool>, p: spec_fn(T) -> bool)
    requires
        keep.len() == s.len(),
        forall|j: int| 0 <= j < s.len() ==> keep[j] == p(s[j]),
    ensures
        kept(s, keep) == s.filter(p),
    decreases s.len(),
{
    reveal(Seq::filter);
    if s.len() > 0 {
        law_retain_is_filter(s.drop_last(), keep.drop_last(), p);
    }
}

} // verus!
