//! How the matched targets of a join are shaped into the joined item.
use vstd::prelude::*;

verus! {

/// The shape of a joined item, chosen by the relationship component: one
/// target at most (`Single`, e.g. a parent link) or many (`Multiple`, e.g. a
/// list of children).
#[derive(Clone, Copy, Debug, PartialEq, Eq, Structural)]
pub enum JoinKind {
    Single,
    Multiple,
}

impl JoinKind {
    /// The name of the mapper type a `Joinable` implementation names.
    pub fn mapper_name(&self) -> (name: &'static str)
        ensures
            name@ == spec_mapper_name(*self),
    {
        match self {
            JoinKind::Single => "SingleJoin",
            JoinKind::Multiple => "MultipleJoin",
        }
    }
}

pub open spec fn spec_mapper_name(kind: JoinKind) -> Seq<char> {
    match kind {
        JoinKind::Single => "SingleJoin"@,
        JoinKind::Multiple => "MultipleJoin"@,
    }
}

/// Mapper of a relationship with at most one target: the joined item is an
/// `Option`.
pub struct SingleJoin;

impl SingleJoin {
    /// Keeps the last matched item, or `None` when nothing matched.
    pub fn map_results<T>(items: Vec<T>) -> (item: Option<T>)
        ensures
            item == (if items@.len() == 0 {
                None
            } else {
                Some(items@.last())
            }),
    {
        let mut items = items;
        items.pop()
    }
}

/// Mapper of a relationship with many targets: the joined item is the
/// `Vec` of every matched item, in target order.
pub struct MultipleJoin;

impl MultipleJoin {
    /// Keeps every matched item, in order.
    pub fn map_results<T>(items: Vec<T>) -> (all: Vec<T>)
        ensures
            all@ == items@,
    {
        items
    }
}

} // verus!
