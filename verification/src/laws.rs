//! Properties that hold of the three joins together.
use vstd::prelude::*;
use crate::join::{any_passed, first_matched, matched};

verus! {

/// A `JoinedFirst` yields exactly the first item the corresponding `Joined`
/// collects, and filters the root out exactly when `Joined` collects
/// nothing.
pub proof fn lemma_first_is_head_of_joined<T>(lookups: Seq<Option<T>>)
    ensures
        first_matched(lookups) == (if matched(lookups).len() > 0 {
            Some(matched(lookups)[0])
        } else {
            None
        }),
    decreases lookups.len(),
{
    if lookups.len() > 0 {
        let rest = lookups.drop_first();
        lemma_first_is_head_of_joined(rest);
        lemma_matched_prepend(lookups[0], rest);
        assert(seq![lookups[0]] + rest =~= lookups);
    }
}

/// Joining over one list of targets followed by another yields the items of
/// the first list followed by those of the second.
pub proof fn lemma_matched_concat<T>(a: Seq<Option<T>>, b: Seq<Option<T>>)
    ensures
        matched(a + b) == matched(a) + matched(b),
    decreases b.len(),
{
    if b.len() == 0 {
        assert(a + b =~= a);
        assert(matched(a) + matched(b) =~= matched(a));
    } else {
        lemma_matched_concat(a, b.drop_last());
        assert((a + b).drop_last() =~= a + b.drop_last());
        assert((a + b).last() == b.last());
        match b.last() {
            Some(x) => {
                assert(matched(a) + matched(b.drop_last()).push(x) =~= (matched(a) + matched(
                    b.drop_last(),
                )).push(x));
            },
            None => {},
        }
    }
}

proof fn lemma_matched_prepend<T>(first: Option<T>, rest: Seq<Option<T>>)
    ensures
        matched(seq![first] + rest) == match first {
            Some(x) => seq![x] + matched(rest),
            None => matched(rest),
        },
{
    lemma_matched_concat(seq![first], rest);
    let one = seq![first];
    assert(one.drop_last() =~= Seq::<Option<T>>::empty());
    assert(matched(Seq::<Option<T>>::empty()) == Seq::<T>::empty());
    assert(one.last() == first);
    match first {
        Some(x) => {
            assert(matched(one) =~= seq![x]);
        },
        None => {
            assert(matched(one) =~= Seq::<T>::empty());
            assert(Seq::<T>::empty() + matched(rest) =~= matched(rest));
        },
    }
}

/// A join never yields more items than the relationship has targets, and
/// every item it yields is the data of one of the targets, in target order.
pub proof fn lemma_matched_from_targets<T>(lookups: Seq<Option<T>>)
    ensures
        matched(lookups).len() <= lookups.len(),
        forall|k: int|
            0 <= k < matched(lookups).len() ==> lookups.contains(
                Some(#[trigger] matched(lookups)[k]),
            ),
    decreases lookups.len(),
{
    if lookups.len() > 0 {
        let before = lookups.drop_last();
        lemma_matched_from_targets(before);
        assert forall|k: int| 0 <= k < matched(lookups).len() implies lookups.contains(
            Some(#[trigger] matched(lookups)[k]),
        ) by {
            if k < matched(before).len() {
                assert(matched(lookups)[k] == matched(before)[k]);
                let j = choose|j: int| 0 <= j < before.len() && before[j] == Some(matched(before)[k]);
                assert(lookups[j] == before[j]);
            } else {
                assert(lookups[lookups.len() - 1] == lookups.last());
            }
        }
    }
}

/// Targets that are gone or do not match leave the joined item unchanged.
pub proof fn lemma_unmatched_target_skipped<T>(lookups: Seq<Option<T>>)
    ensures
        matched(lookups.push(None)) == matched(lookups),
{
    assert(lookups.push(None).drop_last() =~= lookups);
}

/// When a target passes the filter exactly when its data matches (as when
/// the data requires the component the filter asks for), a `JoinCondition`
/// keeps the root exactly when the `Joined` item is non-empty: together
/// they form an inner join that skips roots without matches.
pub proof fn lemma_condition_iff_joined_nonempty<T>(lookups: Seq<Option<T>>, passed: Seq<bool>)
    requires
        passed.len() == lookups.len(),
        forall|i: int| 0 <= i < lookups.len() ==> passed[i] == (lookups[i] is Some),
    ensures
        any_passed(passed) == (matched(lookups).len() > 0),
    decreases lookups.len(),
{
    if lookups.len() > 0 {
        let n = lookups.len() - 1;
        lemma_condition_iff_joined_nonempty(lookups.drop_last(), passed.drop_last());
        if any_passed(passed) && !any_passed(passed.drop_last()) {
            let i = choose|i: int| 0 <= i < passed.len() && #[trigger] passed[i];
            if i < n {
                assert(passed.drop_last()[i]);
            }
        }
        if any_passed(passed.drop_last()) {
            let i = choose|i: int| 0 <= i < passed.drop_last().len() && #[trigger] passed.drop_last()[i];
            assert(passed[i]);
        }
        if lookups[n] is Some {
            assert(passed[n]);
        }
    }
}

/// A relationship with exactly one target (such as a parent link) joined
/// with the single mapper yields that target's data, or nothing when the
/// target does not match.
pub proof fn lemma_single_target_single_join<T>(lookups: Seq<Option<T>>)
    requires
        lookups.len() == 1,
    ensures
        (if matched(lookups).len() == 0 {
            None
        } else {
            Some(matched(lookups).last())
        }) == lookups[0],
{
    assert(lookups.drop_last() =~= Seq::<Option<T>>::empty());
    assert(matched(Seq::<Option<T>>::empty()) == Seq::<T>::empty());
    assert(lookups.last() == lookups[0]);
}

/// A `Joined` item is exactly the data of the matched targets, in target
/// order: the standard `filter_map` of the lookups, keeping every `Some`
/// and dropping every `None`.
pub proof fn lemma_matched_is_filter_map<T>(lookups: Seq<Option<T>>)
    ensures
        matched(lookups) == lookups.filter_map(|o: Option<T>| o),
    decreases lookups.len(),
{
    if lookups.len() > 0 {
        lemma_matched_is_filter_map(lookups.drop_last());
        match lookups.last() {
            Some(x) => {
                assert(matched(lookups.drop_last()).push(x) =~= lookups.drop_last().filter_map(
                    |o: Option<T>| o,
                ) + seq![x]);
            },
            None => {},
        }
    }
}

/// A `JoinedFirst` item is the data of the target with the smallest index
/// that matched, and every earlier target did not match; it is `None`
/// exactly when no target matched.
pub proof fn lemma_first_matched_is_earliest<T>(lookups: Seq<Option<T>>)
    ensures
        first_matched(lookups) is None <==> forall|i: int|
            0 <= i < lookups.len() ==> #[trigger] lookups[i] is None,
        first_matched(lookups) is Some ==> exists|i: int|
            0 <= i < lookups.len() && lookups[i] == first_matched(lookups) && forall|j: int|
                0 <= j < i ==> #[trigger] lookups[j] is None,
    decreases lookups.len(),
{
    if lookups.len() > 0 {
        let rest = lookups.drop_first();
        lemma_first_matched_is_earliest(rest);
        if lookups[0] is None {
            assert forall|i: int| 0 <= i < rest.len() implies rest[i] == lookups[i + 1] by {}
            if first_matched(rest) is Some {
                let i = choose|i: int|
                    0 <= i < rest.len() && rest[i] == first_matched(rest) && forall|j: int|
                        0 <= j < i ==> #[trigger] rest[j] is None;
                assert(lookups[i + 1] == rest[i]);
                assert forall|j: int| 0 <= j < i + 1 implies #[trigger] lookups[j] is None by {
                    if j > 0 {
                        assert(lookups[j] == rest[j - 1]);
                    }
                }
            } else {
                assert forall|i: int| 0 <= i < lookups.len() implies #[trigger] lookups[i] is None by {
                    if i > 0 {
                        assert(lookups[i] == rest[i - 1]);
                    }
                }
            }
        } else {
            assert(lookups[0] == first_matched(lookups));
        }
    }
}

} // verus!
