//! Stable insertion order of sequences under a total preorder, and its laws.
use vstd::prelude::*;

verus! {

broadcast use vstd::seq_lib::to_multiset_insert;

/// Whether `le` orders every pair of values and is transitive.
pub open spec fn total_preorder<T>(le: spec_fn(T, T) -> bool) -> bool {
    &&& forall|x: T, y: T| #[trigger] le(x, y) || le(y, x)
    &&& forall|x: T, y: T, z: T| #[trigger] le(x, y) && #[trigger] le(y, z) ==> le(x, z)
}

/// Whether a sequence is in order under `le`.
pub open spec fn is_sorted_by<T>(s: Seq<T>, le: spec_fn(T, T) -> bool) -> bool {
    forall|i: int, j: int| 0 <= i < j < s.len() ==> le(#[trigger] s[i], #[trigger] s[j])
}

/// Position at which a value is inserted into an ordered sequence: after every value
/// that does not order after it.
pub open spec fn insert_position<T>(s: Seq<T>, x: T, le: spec_fn(T, T) -> bool) -> nat
    decreases s.len(),
{
    if s.len() == 0 {
        0
    } else if !le(s[0], x) {
        0
    } else {
        1 + insert_position(s.drop_first(), x, le)
    }
}

/// Stable insertion sort: each value in turn is inserted after every earlier value that
/// does not order after it.
pub open spec fn insertion_sorted<T>(s: Seq<T>, le: spec_fn(T, T) -> bool) -> Seq<T>
    decreases s.len(),
{
    if s.len() == 0 {
        Seq::empty()
    } else {
        let prefix = insertion_sorted(s.drop_last(), le);
        prefix.insert(insert_position(prefix, s.last(), le) as int, s.last())
    }
}

/// The insert position lies within the sequence, every value before it orders before the
/// inserted value, and the value at it does not.
pub proof fn lemma_insert_position<T>(s: Seq<T>, x: T, le: spec_fn(T, T) -> bool)
    ensures
        insert_position(s, x, le) <= s.len(),
        forall|i: int| 0 <= i < insert_position(s, x, le) ==> le(#[trigger] s[i], x),
        insert_position(s, x, le) < s.len() ==> !le(s[insert_position(s, x, le) as int], x),
    decreases s.len(),
{
    if s.len() > 0 && le(s[0], x) {
        let rest = s.drop_first();
        lemma_insert_position(rest, x, le);
        assert forall|i: int| 0 <= i < insert_position(s, x, le) implies le(#[trigger] s[i], x) by {
            if i > 0 {
                assert(s[i] == rest[i - 1]);
            }
        }
    }
}

/// One step of the scan for the insert position: past a value that orders before `x`,
/// the position is one further along the rest of the sequence.
pub proof fn lemma_insert_position_step<T>(s: Seq<T>, x: T, le: spec_fn(T, T) -> bool, k: int)
    requires
        0 <= k < s.len(),
        le(s[k], x),
        insert_position(s, x, le) == k + insert_position(s.subrange(k, s.len() as int), x, le),
    ensures
        insert_position(s, x, le) == (k + 1) + insert_position(
            s.subrange(k + 1, s.len() as int),
            x,
            le,
        ),
{
    assert(s.subrange(k, s.len() as int).drop_first() =~= s.subrange(k + 1, s.len() as int));
}

/// Inserting a value at its insert position keeps an ordered sequence ordered.
pub proof fn lemma_insert_keeps_sorted<T>(s: Seq<T>, x: T, le: spec_fn(T, T) -> bool)
    requires
        total_preorder(le),
        is_sorted_by(s, le),
    ensures
        is_sorted_by(s.insert(insert_position(s, x, le) as int, x), le),
{
    lemma_insert_position(s, x, le);
    let p = insert_position(s, x, le) as int;
    let t = s.insert(p, x);
    s.insert_ensures(p, x);
    assert forall|i: int, j: int| 0 <= i < j < t.len() implies le(#[trigger] t[i], #[trigger] t[j]) by {
        if j < p {
            assert(t[i] == s[i] && t[j] == s[j]);
        } else if j == p {
            assert(t[i] == s[i]);
        } else if i < p {
            assert(t[j] == s[j - 1]);
            assert(le(s[i], s[j - 1]));
        } else if i == p {
            assert(t[j] == s[j - 1]);
            assert(le(x, s[p]));
            if p < j - 1 {
                assert(le(s[p], s[j - 1]));
            }
        } else {
            assert(t[i] == s[i - 1] && t[j] == s[j - 1]);
        }
    }
}

/// Insertion sort under a total preorder yields an ordered rearrangement of its input.
pub proof fn lemma_insertion_sorted<T>(s: Seq<T>, le: spec_fn(T, T) -> bool)
    requires
        total_preorder(le),
    ensures
        is_sorted_by(insertion_sorted(s, le), le),
        insertion_sorted(s, le).to_multiset() == s.to_multiset(),
        insertion_sorted(s, le).len() == s.len(),
    decreases s.len(),
{
    broadcast use vstd::seq_lib::to_multiset_build;

    if s.len() == 0 {
        assert(insertion_sorted(s, le) =~= s);
    } else {
        let prefix = insertion_sorted(s.drop_last(), le);
        lemma_insertion_sorted(s.drop_last(), le);
        lemma_insert_position(prefix, s.last(), le);
        lemma_insert_keeps_sorted(prefix, s.last(), le);
        assert(s.drop_last().push(s.last()) =~= s);
    }
}

} // verus!
