use bevy_spliff::join::{
    any_pass, collect_matches, first_match, join_condition_filter_fetch, joined_fetch,
    joined_first_fetch,
};
use bevy_spliff::mapping::{JoinKind, MultipleJoin, SingleJoin};

#[test]
fn joined_keeps_every_match_in_target_order() {
    let items = joined_fetch(Some(vec![Some("Item"), Some("Item")]));
    assert_eq!(items, Some(vec!["Item", "Item"]));
}

#[test]
fn joined_skips_targets_that_are_gone_or_do_not_match() {
    let items = joined_fetch(Some(vec![Some("Valid"), None]));
    assert_eq!(items, Some(vec!["Valid"]));
    let items = joined_fetch(Some(vec![None::<&str>]));
    assert_eq!(items, Some(vec![]));
}

#[test]
fn joined_keeps_root_with_no_targets() {
    let items = joined_fetch::<u32>(Some(vec![]));
    assert_eq!(items, Some(vec![]));
}

#[test]
fn joined_drops_root_without_relationship() {
    assert_eq!(joined_fetch::<u32>(None), None);
}

#[test]
fn joined_first_yields_first_match() {
    let first = joined_first_fetch(Some(vec![None, Some("Legendary"), Some("Another")]));
    assert_eq!(first, Some("Legendary"));
}

#[test]
fn joined_first_drops_root_without_matches() {
    assert_eq!(joined_first_fetch::<u8>(Some(vec![])), None);
    assert_eq!(joined_first_fetch::<u8>(Some(vec![None, None])), None);
    assert_eq!(joined_first_fetch::<u8>(None), None);
}

#[test]
fn join_condition_keeps_root_when_a_later_target_passes() {
    assert!(join_condition_filter_fetch(Some(vec![false, true])));
}

#[test]
fn join_condition_drops_root_when_nothing_passes() {
    assert!(!join_condition_filter_fetch(Some(vec![])));
    assert!(!join_condition_filter_fetch(Some(vec![false, false])));
    assert!(!join_condition_filter_fetch(None));
}

#[test]
fn nested_join_conditions_compose() {
    // A root passes JC<A, JC<B, F>> when one of its A targets has a B target passing F.
    let inner_first = join_condition_filter_fetch(Some(vec![false]));
    let inner_second = join_condition_filter_fetch(Some(vec![false, true]));
    assert!(join_condition_filter_fetch(Some(vec![inner_first, inner_second])));
}

#[test]
fn single_join_keeps_last_match() {
    assert_eq!(SingleJoin::map_results(vec![1, 2, 3]), Some(3));
    assert_eq!(SingleJoin::map_results(Vec::<u8>::new()), None);
}

#[test]
fn multiple_join_keeps_all_matches() {
    assert_eq!(MultipleJoin::map_results(vec![1, 2, 3]), vec![1, 2, 3]);
}

#[test]
fn first_match_agrees_with_head_of_collected() {
    let lookups = vec![None, Some(7), None, Some(9)];
    let collected = collect_matches(lookups.clone());
    assert_eq!(first_match(lookups), collected.first().copied());
}

#[test]
fn condition_agrees_with_nonempty_join() {
    let lookups = vec![None, Some(4u8), None];
    let passed: Vec<bool> = lookups.iter().map(|l| l.is_some()).collect();
    assert_eq!(any_pass(&passed), !collect_matches(lookups).is_empty());
}

#[test]
fn mapper_names() {
    assert_eq!(JoinKind::Single.mapper_name(), "SingleJoin");
    assert_eq!(JoinKind::Multiple.mapper_name(), "MultipleJoin");
}
