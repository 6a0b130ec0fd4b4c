//! Properties of the derived `Joinable` implementation, stated over the
//! text it produces and the fields it selects.
use vstd::prelude::*;
use crate::derive::{
    field_error, spec_message, DeriveError,
    derived_for, DeriveShape, TypeShape,
    access_text, decimal_text, digit_text, is_join_marker, is_marked, has_marked, selects,
    source_text, FieldAccess, FieldShape, JoinableImpl,
};
use crate::mapping::{spec_mapper_name, JoinKind};

verus! {

/// The number a string of decimal digits denotes, most significant first.
pub open spec fn numeral_value(s: Seq<char>) -> int
    decreases s.len(),
{
    if s.len() == 0 {
        0
    } else {
        numeral_value(s.drop_last()) * 10 + (s.last() as int - 48)
    }
}

/// A non-empty string of the characters `0` to `9`, without a leading zero
/// unless it is `0` itself.
pub open spec fn is_canonical_numeral(s: Seq<char>) -> bool {
    &&& s.len() > 0
    &&& forall|k: int| 0 <= k < s.len() ==> 48 <= #[trigger] s[k] as int <= 57
    &&& (s.len() == 1 || s[0] as int != 48)
}

/// The text of a digit is the single character `'0' + d`.
pub proof fn lemma_digit_text_is_the_digit(d: nat)
    requires
        d < 10,
    ensures
        digit_text(d).len() == 1,
        digit_text(d)[0] as int == 48 + d,
{
    reveal_strlit("0");
    reveal_strlit("1");
    reveal_strlit("2");
    reveal_strlit("3");
    reveal_strlit("4");
    reveal_strlit("5");
    reveal_strlit("6");
    reveal_strlit("7");
    reveal_strlit("8");
    reveal_strlit("9");
}

/// The rendered index of a tuple field is the canonical decimal numeral of
/// that index: read back in base ten it is the index itself.
pub proof fn lemma_decimal_text_denotes_n(n: nat)
    ensures
        is_canonical_numeral(decimal_text(n)),
        numeral_value(decimal_text(n)) == n,
    decreases n,
{
    if n < 10 {
        lemma_digit_text_is_the_digit(n);
        let s = decimal_text(n);
        assert(s.drop_last().len() == 0);
        assert(numeral_value(s.drop_last()) == 0);
        assert(s.last() == s[0]);
    } else {
        let q = n / 10;
        let r = n % 10;
        lemma_decimal_text_denotes_n(q);
        lemma_digit_text_is_the_digit(r);
        let a = decimal_text(q);
        let s = a + digit_text(r);
        assert(decimal_text(n) == s);
        assert(s.drop_last() =~= a);
        assert(s.last() == digit_text(r)[0]);
        assert(q * 10 + r == n) by (nonlinear_arith)
            requires
                q == n / 10,
                r == n % 10,
        ;
        assert forall|k: int| 0 <= k < s.len() implies 48 <= #[trigger] s[k] as int <= 57 by {
            if k < a.len() {
                assert(s[k] == a[k]);
            }
        }
        assert(s[0] == a[0]);
        if a.len() == 1 {
            assert(a.drop_last().len() == 0);
            assert(numeral_value(a.drop_last()) == 0);
            assert(a.last() == a[0]);
        }
    }
}

/// How the implementation reaches its join field: `self . name` for a named
/// field, `self . N` with `N` the canonical decimal numeral of the index
/// for a tuple field.
pub proof fn lemma_access_text_names_the_field(access: FieldAccess)
    ensures
        match access {
            FieldAccess::Named(name) => access_text(access) == "self . "@ + name@,
            FieldAccess::Index(i) => exists|digits: Seq<char>|
                access_text(access) == "self . "@ + digits && is_canonical_numeral(digits)
                    && numeral_value(digits) == i,
        },
{
    match access {
        FieldAccess::Named(_) => {},
        FieldAccess::Index(i) => {
            lemma_decimal_text_denotes_n(i as nat);
            let digits = decimal_text(i as nat);
            assert(access_text(access) == "self . "@ + digits);
        },
    }
}

/// The expression listing the targets, chosen by the join kind alone: a
/// many-target join iterates the field and clones each entity, a one-target
/// join yields the field once; named and tuple fields are treated alike.
pub open spec fn expected_targets(kind: JoinKind, access: Seq<char>) -> Seq<char> {
    if kind == JoinKind::Multiple {
        access + " . iter () . cloned ()"@
    } else {
        "std :: iter :: once ("@ + access + ")"@
    }
}

/// The derived source: the header names the type and its generics, the
/// mapper and the target iterator type follow the join kind, and the body
/// of `targets` is [`expected_targets`] over the field access.
pub proof fn lemma_source_text_layout(imp: JoinableImpl)
    ensures
        source_text(imp) == "impl "@ + imp.impl_generics@ + " Joinable for "@ + imp.ident@ + " "@
            + imp.ty_generics@ + " "@ + imp.where_clause@ + " { type Mapper = "@ + (if imp.kind
            == JoinKind::Multiple {
            "MultipleJoin"@
        } else {
            "SingleJoin"@
        }) + " ; type Out < 'a > = "@ + (if imp.kind == JoinKind::Multiple {
            "std :: iter :: Cloned < std :: slice :: Iter < 'a , bevy_ecs :: prelude :: Entity > >"@
        } else {
            "std :: iter :: Once < bevy_ecs :: prelude :: Entity >"@
        }) + " where Self : 'a ; "@ + "fn targets (& self) -> Self :: Out < '_ > { "@
            + expected_targets(imp.kind, access_text(imp.access)) + " } }"@,
{
}

/// The derived `targets` body ends the source, and it depends on the join
/// kind and the field access only: two implementations with the same kind
/// and access end in the same `targets` body, whatever their field is
/// called or indexed by, and a many-target body never wraps the field in
/// `once`.
pub proof fn lemma_source_ends_with_targets(imp: JoinableImpl)
    ensures
        ("fn targets (& self) -> Self :: Out < '_ > { "@ + expected_targets(
            imp.kind,
            access_text(imp.access),
        ) + " } }"@).is_suffix_of(source_text(imp)),
{
    lemma_source_text_layout(imp);
    let tail = "fn targets (& self) -> Self :: Out < '_ > { "@ + expected_targets(
        imp.kind,
        access_text(imp.access),
    ) + " } }"@;
    let head = "impl "@ + imp.impl_generics@ + " Joinable for "@ + imp.ident@ + " "@
        + imp.ty_generics@ + " "@ + imp.where_clause@ + " { type Mapper = "@ + (if imp.kind
        == JoinKind::Multiple {
        "MultipleJoin"@
    } else {
        "SingleJoin"@
    }) + " ; type Out < 'a > = "@ + (if imp.kind == JoinKind::Multiple {
        "std :: iter :: Cloned < std :: slice :: Iter < 'a , bevy_ecs :: prelude :: Entity > >"@
    } else {
        "std :: iter :: Once < bevy_ecs :: prelude :: Entity >"@
    }) + " where Self : 'a ; "@;
    assert(source_text(imp) =~= head + tail);
    assert((head + tail).subrange(head.len() as int, (head + tail).len() as int) =~= tail);
}

/// An attribute marks the join field exactly when its path is `join`,
/// `relationship` or `relationship_target`; any other attribute (such as
/// `reflect` or `serde`) marks nothing.
pub proof fn lemma_only_join_attributes_mark(path: Option<String>)
    ensures
        is_join_marker(path) <==> (path matches Some(name) && (name@ == "join"@ || name@
            == "relationship"@ || name@ == "relationship_target"@)),
{
}

/// When some field is marked, the selected field carries an attribute whose
/// path is one of the three join names, and no earlier field carries any
/// such attribute; when none is marked, only the sole field of a one-field
/// struct is selected.
pub proof fn lemma_selected_field_is_first_with_join_attribute(fields: Seq<FieldShape>, i: int)
    requires
        selects(fields, i),
    ensures
        0 <= i < fields.len(),
        has_marked(fields) ==> exists|k: int|
            0 <= k < fields[i].attribute_paths@.len() && (#[trigger] fields[i].attribute_paths@[k]
                matches Some(name) && (name@ == "join"@ || name@ == "relationship"@ || name@
                == "relationship_target"@)),
        forall|j: int, k: int|
            0 <= j < i && 0 <= k < fields[j].attribute_paths@.len() ==> !(
            #[trigger] fields[j].attribute_paths@[k] matches Some(name) && (name@ == "join"@
                || name@ == "relationship"@ || name@ == "relationship_target"@)),
        !has_marked(fields) ==> fields.len() == 1 && i == 0,
{
    if has_marked(fields) {
        assert(is_marked(fields[i]));
        let k = choose|k: int|
            0 <= k < fields[i].attribute_paths@.len() && is_join_marker(
                #[trigger] fields[i].attribute_paths@[k],
            );
        lemma_only_join_attributes_mark(fields[i].attribute_paths@[k]);
        assert forall|j: int, k: int|
            0 <= j < i && 0 <= k < fields[j].attribute_paths@.len() implies !(
            #[trigger] fields[j].attribute_paths@[k] matches Some(name) && (name@ == "join"@
                || name@ == "relationship"@ || name@ == "relationship_target"@)) by {
            assert(!is_marked(fields[j]));
            lemma_only_join_attributes_mark(fields[j].attribute_paths@[k]);
        }
    } else {
        assert forall|j: int, k: int|
            0 <= j < i && 0 <= k < fields[j].attribute_paths@.len() implies !(
            #[trigger] fields[j].attribute_paths@[k] matches Some(name) && (name@ == "join"@
                || name@ == "relationship"@ || name@ == "relationship_target"@)) by {}
    }
}

/// The derived implementation keeps the item's name and generics, joins on
/// many targets exactly when the selected field's type is a path ending in
/// `Vec`, and reaches the field by its name, or by its position when it has
/// none.
pub proof fn lemma_derived_kind_and_access(
    input: DeriveShape,
    fields: Seq<FieldShape>,
    i: int,
    imp: JoinableImpl,
)
    requires
        derived_for(input, fields, i, imp),
        0 <= i < fields.len(),
    ensures
        imp.ident == input.ident,
        imp.impl_generics == input.impl_generics,
        imp.ty_generics == input.ty_generics,
        imp.where_clause == input.where_clause,
        (imp.kind == JoinKind::Multiple) <==> (fields[i].ty matches TypeShape::Path {
            last_segment: Some(name),
        } && name@ == "Vec"@),
        fields[i].ident matches Some(name) ==> imp.access == FieldAccess::Named(name),
        fields[i].ident is None ==> imp.access == FieldAccess::Index(i as usize),
{
}

/// A struct without fields reports that it has none; one with several
/// unmarked fields reports that the join field is ambiguous.
pub proof fn lemma_field_error_names_cause(fields: Seq<FieldShape>)
    ensures
        (field_error(fields) == DeriveError::NoFields) <==> fields.len() == 0,
        (field_error(fields) == DeriveError::AmbiguousFields) <==> fields.len() != 0,
{
}

/// Each error reports its own message.
pub proof fn lemma_error_messages(e: DeriveError)
    ensures
        e == DeriveError::OnlyStructs ==> spec_message(e)
            == "Joinable can only be derived for structs"@,
        e == DeriveError::NoFields ==> spec_message(e)
            == "Joinable struct must have at least one field"@,
        e == DeriveError::AmbiguousFields ==> spec_message(e)
            == "Multiple fields found. Please mark the join target with #[join]"@,
{
}

/// A one-target relationship names the `SingleJoin` mapper, a many-target
/// one the `MultipleJoin` mapper.
pub proof fn lemma_mapper_names(kind: JoinKind)
    ensures
        kind == JoinKind::Single ==> spec_mapper_name(kind) == "SingleJoin"@,
        kind == JoinKind::Multiple ==> spec_mapper_name(kind) == "MultipleJoin"@,
{
}

} // verus!
