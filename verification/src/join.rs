//! What a join yields for one root entity.
//!
//! A root entity holds a relationship component whose targets are other
//! entities. Looking a target up either yields the requested data (`Some`)
//! or fails because the target no longer exists or does not match the
//! nested query (`None`). The functions here decide, from those per-target
//! lookups, what the three kinds of join produce for the root.
use vstd::prelude::*;

verus! {

/// The data of every target that matched, in target order.
pub open spec fn matched<T>(lookups: Seq<Option<T>>) -> Seq<T>
    decreases lookups.len(),
{
    if lookups.len() == 0 {
        Seq::empty()
    } else {
        let before = matched(lookups.drop_last());
        match lookups.last() {
            Some(item) => before.push(item),
            None => before,
        }
    }
}

/// The data of the first target that matched, if any did.
pub open spec fn first_matched<T>(lookups: Seq<Option<T>>) -> Option<T>
    decreases lookups.len(),
{
    if lookups.len() == 0 {
        None
    } else {
        match lookups[0] {
            Some(item) => Some(item),
            None => first_matched(lookups.drop_first()),
        }
    }
}

/// Whether some target passed the nested filter.
pub open spec fn any_passed(passed: Seq<bool>) -> bool {
    exists|i: int| 0 <= i < passed.len() && #[trigger] passed[i]
}

proof fn lemma_first_matched_skip<T>(lookups: Seq<Option<T>>, i: int)
    requires
        0 <= i < lookups.len(),
        lookups[i] is None,
    ensures
        first_matched(lookups.skip(i)) == first_matched(lookups.skip(i + 1)),
{
    assert(lookups.skip(i).drop_first() =~= lookups.skip(i + 1));
}

/// Collects the data of every matched target, skipping targets that could
/// not be looked up or did not match, and keeping the targets' order.
pub fn collect_matches<T>(lookups: Vec<Option<T>>) -> (items: Vec<T>)
    ensures
        items@ == matched(lookups@),
{
    let ghost all = lookups@;
    let mut items: Vec<T> = Vec::new();
    for lookup in it: lookups.into_iter()
        invariant
            it.seq() == all,
            items@ == matched(all.take(it.index() as int)),
    {
        let ghost k = it.index() as int;
        assert(all.take(k + 1).drop_last() =~= all.take(k));
        match lookup {
            Some(item) => {
                items.push(item);
            },
            None => {},
        }
    }
    assert(all.take(all.len() as int) =~= all);
    items
}

/// The data of the first matched target; later targets are not looked at.
pub fn first_match<T>(lookups: Vec<Option<T>>) -> (found: Option<T>)
    ensures
        found == first_matched(lookups@),
{
    let ghost all = lookups@;
    assert(all.skip(0) =~= all);
    for lookup in it: lookups.into_iter()
        invariant
            it.seq() == all,
            first_matched(all) == first_matched(all.skip(it.index() as int)),
    {
        let ghost k = it.index() as int;
        if lookup.is_some() {
            return lookup;
        }
        proof {
            lemma_first_matched_skip(all, k);
        }
    }
    assert(all.skip(all.len() as int) =~= Seq::<Option<T>>::empty());
    None
}

/// Whether any target passed the nested filter.
pub fn any_pass(passed: &Vec<bool>) -> (found: bool)
    ensures
        found == any_passed(passed@),
{
    let mut i: usize = 0;
    while i < passed.len()
        invariant
            i <= passed.len(),
            forall|j: int| 0 <= j < i ==> !passed@[j],
        decreases passed.len() - i,
    {
        if passed[i] {
            return true;
        }
        i = i + 1;
    }
    false
}

/// What a `Joined` query yields for one root entity.
///
/// `lookups` is `None` when the root holds no relationship component; the
/// root is then not matched. Otherwise the root is always kept (a left
/// join) and yields the data of every matched target, in target order,
/// possibly none.
pub fn joined_fetch<T>(lookups: Option<Vec<Option<T>>>) -> (item: Option<Vec<T>>)
    ensures
        match lookups {
            None => item is None,
            Some(v) => item matches Some(items) && items@ == matched(v@),
        },
{
    match lookups {
        None => None,
        Some(v) => Some(collect_matches(v)),
    }
}

/// What a `JoinedFirst` query yields for one root entity: the data of the
/// first matched target. The root is filtered out (an inner join) when it
/// holds no relationship component or when no target matched.
pub fn joined_first_fetch<T>(lookups: Option<Vec<Option<T>>>) -> (item: Option<T>)
    ensures
        item == match lookups {
            None => None,
            Some(v) => first_matched(v@),
        },
{
    match lookups {
        None => None,
        Some(v) => first_match(v),
    }
}

/// Whether a root entity passes a `JoinCondition` filter: it must hold the
/// relationship component and at least one of its targets must pass the
/// nested filter.
pub fn join_condition_filter_fetch(passed: Option<Vec<bool>>) -> (keep: bool)
    ensures
        keep == match passed {
            None => false,
            Some(v) => any_passed(v@),
        },
{
    match passed {
        None => false,
        Some(v) => any_pass(&v),
    }
}

} // verus!
