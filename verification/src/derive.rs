//! Deriving `Joinable` from the shape of a struct.
//!
//! The derive picks the field that holds the join target(s): the first
//! field carrying a `#[join]`, `#[relationship]` or `#[relationship_target]`
//! attribute, or else the only field of the struct. A `Vec` field joins on
//! many targets, any other field on exactly one. The result is the source
//! text of the `Joinable` implementation.
use vstd::prelude::*;
use vstd::string::*;
use crate::mapping::{JoinKind, spec_mapper_name};

verus! {

/// Message of [`DeriveError::OnlyStructs`].
pub const ONLY_STRUCTS: &'static str = "Joinable can only be derived for structs";

/// Message of [`DeriveError::NoFields`].
pub const NO_FIELDS: &'static str = "Joinable struct must have at least one field";

/// Message of [`DeriveError::AmbiguousFields`].
pub const AMBIGUOUS_FIELDS: &'static str = "Multiple fields found. Please mark the join target with #[join]";

/// The type of a field, as far as the derive looks at it.
#[derive(Debug)]
pub enum TypeShape {
    /// A path type such as `Vec<Entity>`; `last_segment` is the identifier
    /// of its last segment (`Vec`), if the path has a segment.
    Path { last_segment: Option<String> },
    /// Any other type, such as a reference or a tuple.
    Other,
}

/// One field of the struct.
#[derive(Debug)]
pub struct FieldShape {
    /// The field's name; `None` for a tuple-struct field.
    pub ident: Option<String>,
    /// For each attribute on the field, its path when that path is a single
    /// plain identifier (as `join` in `#[join]`), else `None`.
    pub attribute_paths: Vec<Option<String>>,
    pub ty: TypeShape,
}

/// The body of the item the derive is applied to.
#[derive(Debug)]
pub enum DataShape {
    Struct(Vec<FieldShape>),
    Enum,
    Union,
}

/// The item the derive is applied to.
#[derive(Debug)]
pub struct DeriveShape {
    pub ident: String,
    /// The generics as they appear after `impl`.
    pub impl_generics: String,
    /// The generics as they appear after the type's name.
    pub ty_generics: String,
    /// The `where` clause, or the empty string.
    pub where_clause: String,
    pub data: DataShape,
}

/// How the implementation reaches the join field.
#[derive(Debug)]
pub enum FieldAccess {
    Named(String),
    Index(usize),
}

/// The `Joinable` implementation the derive produces.
#[derive(Debug)]
pub struct JoinableImpl {
    pub ident: String,
    pub impl_generics: String,
    pub ty_generics: String,
    pub where_clause: String,
    pub kind: JoinKind,
    pub access: FieldAccess,
}

/// Why a `Joinable` implementation cannot be derived.
#[derive(Clone, Copy, Debug, PartialEq, Eq, Structural)]
pub enum DeriveError {
    /// The item is an enum or a union.
    OnlyStructs,
    /// The struct has no field.
    NoFields,
    /// The struct has several fields and none is marked.
    AmbiguousFields,
}

impl DeriveError {
    /// The message reported to the user.
    pub fn message(&self) -> (text: &'static str)
        ensures
            text@ == spec_message(*self),
    {
        match self {
            DeriveError::OnlyStructs => ONLY_STRUCTS,
            DeriveError::NoFields => NO_FIELDS,
            DeriveError::AmbiguousFields => AMBIGUOUS_FIELDS,
        }
    }
}

pub open spec fn spec_message(e: DeriveError) -> Seq<char> {
    match e {
        DeriveError::OnlyStructs => ONLY_STRUCTS@,
        DeriveError::NoFields => NO_FIELDS@,
        DeriveError::AmbiguousFields => AMBIGUOUS_FIELDS@,
    }
}

/// An attribute path that marks the join field.
pub open spec fn is_join_marker(path: Option<String>) -> bool {
    match path {
        Some(name) => name@ == "join"@ || name@ == "relationship"@ || name@ == "relationship_target"@,
        None => false,
    }
}

/// A field carrying a marking attribute.
pub open spec fn is_marked(field: FieldShape) -> bool {
    exists|k: int|
        0 <= k < field.attribute_paths@.len() && is_join_marker(
            #[trigger] field.attribute_paths@[k],
        )
}

pub open spec fn has_marked(fields: Seq<FieldShape>) -> bool {
    exists|k: int| 0 <= k < fields.len() && is_marked(#[trigger] fields[k])
}

/// The field at `i` is the join field: the first marked field, or, when no
/// field is marked, the only field.
pub open spec fn selects(fields: Seq<FieldShape>, i: int) -> bool {
    if has_marked(fields) {
        &&& 0 <= i < fields.len()
        &&& is_marked(fields[i])
        &&& forall|j: int| 0 <= j < i ==> !is_marked(#[trigger] fields[j])
    } else {
        fields.len() == 1 && i == 0
    }
}

/// The error when no field can be selected.
pub open spec fn field_error(fields: Seq<FieldShape>) -> DeriveError {
    if fields.len() == 0 {
        DeriveError::NoFields
    } else {
        DeriveError::AmbiguousFields
    }
}

pub open spec fn spec_is_vec(ty: TypeShape) -> bool {
    match ty {
        TypeShape::Path { last_segment: Some(name) } => name@ == "Vec"@,
        _ => false,
    }
}

fn equals_literal(text: &String, literal: &str) -> (same: bool)
    ensures
        same == (text@ == literal@),
{
    *text == String::from_str(literal)
}

fn is_join_attribute(path: &Option<String>) -> (marks: bool)
    ensures
        marks == is_join_marker(*path),
{
    match path {
        Some(name) => equals_literal(name, "join") || equals_literal(name, "relationship")
            || equals_literal(name, "relationship_target"),
        None => false,
    }
}

fn field_is_marked(field: &FieldShape) -> (marked: bool)
    ensures
        marked == is_marked(*field),
{
    let mut k: usize = 0;
    while k < field.attribute_paths.len()
        invariant
            k <= field.attribute_paths@.len(),
            forall|j: int| 0 <= j < k ==> !is_join_marker(#[trigger] field.attribute_paths@[j]),
        decreases field.attribute_paths.len() - k,
    {
        if is_join_attribute(&field.attribute_paths[k]) {
            return true;
        }
        k = k + 1;
    }
    false
}

/// Whether a field type is a `Vec`: a path whose last segment is `Vec`.
pub fn is_vec(ty: &TypeShape) -> (vec: bool)
    ensures
        vec == spec_is_vec(*ty),
{
    match ty {
        TypeShape::Path { last_segment: Some(name) } => equals_literal(name, "Vec"),
        _ => false,
    }
}

/// Picks the join field: the first field with a marking attribute, or the
/// only field when none is marked.
pub fn analyze_fields(fields: &Vec<FieldShape>) -> (picked: Result<usize, DeriveError>)
    ensures
        match picked {
            Ok(i) => selects(fields@, i as int),
            Err(e) => !has_marked(fields@) && fields@.len() != 1 && e == field_error(fields@),
        },
{
    let mut i: usize = 0;
    while i < fields.len()
        invariant
            i <= fields@.len(),
            forall|j: int| 0 <= j < i ==> !is_marked(#[trigger] fields@[j]),
        decreases fields.len() - i,
    {
        if field_is_marked(&fields[i]) {
            return Ok(i);
        }
        i = i + 1;
    }
    if fields.len() == 1 {
        Ok(0)
    } else if fields.len() == 0 {
        Err(DeriveError::NoFields)
    } else {
        Err(DeriveError::AmbiguousFields)
    }
}

/// How the implementation reaches the field at `index`.
pub open spec fn spec_access(field: FieldShape, index: int) -> FieldAccess {
    match field.ident {
        Some(name) => FieldAccess::Named(name),
        None => FieldAccess::Index(index as usize),
    }
}

/// The implementation derived for `input` when the field at `index` is the
/// join field.
pub open spec fn derived_for(input: DeriveShape, fields: Seq<FieldShape>, index: int, imp: JoinableImpl) -> bool {
    &&& imp.ident == input.ident
    &&& imp.impl_generics == input.impl_generics
    &&& imp.ty_generics == input.ty_generics
    &&& imp.where_clause == input.where_clause
    &&& imp.kind == (if spec_is_vec(fields[index].ty) {
        JoinKind::Multiple
    } else {
        JoinKind::Single
    })
    &&& imp.access == spec_access(fields[index], index)
}

fn access_of(field: &FieldShape, index: usize) -> (access: FieldAccess)
    ensures
        access == spec_access(*field, index as int),
{
    match &field.ident {
        Some(name) => FieldAccess::Named(name.clone()),
        None => FieldAccess::Index(index),
    }
}

/// Derives the `Joinable` implementation of a struct: the join field is
/// chosen by [`analyze_fields`], a `Vec` field joins on many targets, any
/// other field on one.
pub fn expand_joinable(input: &DeriveShape) -> (out: Result<JoinableImpl, DeriveError>)
    ensures
        match input.data {
            DataShape::Struct(fields) => match out {
                Ok(imp) => exists|i: int| selects(fields@, i) && derived_for(*input, fields@, i, imp),
                Err(e) => !has_marked(fields@) && fields@.len() != 1 && e == field_error(fields@),
            },
            _ => out == Err::<JoinableImpl, DeriveError>(DeriveError::OnlyStructs),
        },
{
    match &input.data {
        DataShape::Struct(fields) => {
            let index = analyze_fields(fields)?;
            let field = &fields[index];
            let kind = if is_vec(&field.ty) {
                JoinKind::Multiple
            } else {
                JoinKind::Single
            };
            let imp = JoinableImpl {
                ident: input.ident.clone(),
                impl_generics: input.impl_generics.clone(),
                ty_generics: input.ty_generics.clone(),
                where_clause: input.where_clause.clone(),
                kind,
                access: access_of(field, index),
            };
            assert(derived_for(*input, fields@, index as int, imp));
            Ok(imp)
        },
        _ => Err(DeriveError::OnlyStructs),
    }
}

/// The decimal digit `d`.
pub open spec fn digit_text(d: nat) -> Seq<char> {
    if d == 0 {
        "0"@
    } else if d == 1 {
        "1"@
    } else if d == 2 {
        "2"@
    } else if d == 3 {
        "3"@
    } else if d == 4 {
        "4"@
    } else if d == 5 {
        "5"@
    } else if d == 6 {
        "6"@
    } else if d == 7 {
        "7"@
    } else if d == 8 {
        "8"@
    } else {
        "9"@
    }
}

/// The decimal text of `n`, without leading zeros.
pub open spec fn decimal_text(n: nat) -> Seq<char>
    decreases n,
{
    if n < 10 {
        digit_text(n)
    } else {
        decimal_text(n / 10) + digit_text(n % 10)
    }
}

fn digit(d: usize) -> (text: &'static str)
    requires
        d < 10,
    ensures
        text@ == digit_text(d as nat),
{
    if d == 0 {
        "0"
    } else if d == 1 {
        "1"
    } else if d == 2 {
        "2"
    } else if d == 3 {
        "3"
    } else if d == 4 {
        "4"
    } else if d == 5 {
        "5"
    } else if d == 6 {
        "6"
    } else if d == 7 {
        "7"
    } else if d == 8 {
        "8"
    } else {
        "9"
    }
}

fn decimal(n: usize) -> (text: String)
    ensures
        text@ == decimal_text(n as nat),
    decreases n,
{
    if n < 10 {
        String::from_str(digit(n))
    } else {
        let mut text = decimal(n / 10);
        text.append(digit(n % 10));
        text
    }
}

/// The expression of the join field, as tokens separated by spaces
/// (`self . target`, `self . 0`).
pub open spec fn access_text(access: FieldAccess) -> Seq<char> {
    match access {
        FieldAccess::Named(name) => "self . "@ + name@,
        FieldAccess::Index(i) => "self . "@ + decimal_text(i as nat),
    }
}

/// The iterator type of the targets.
pub open spec fn out_type_text(kind: JoinKind) -> Seq<char> {
    match kind {
        JoinKind::Multiple => "std :: iter :: Cloned < std :: slice :: Iter < 'a , bevy_ecs :: prelude :: Entity > >"@,
        JoinKind::Single => "std :: iter :: Once < bevy_ecs :: prelude :: Entity >"@,
    }
}

/// The expression listing the targets.
pub open spec fn targets_text(kind: JoinKind, access: Seq<char>) -> Seq<char> {
    match kind {
        JoinKind::Multiple => access + " . iter () . cloned ()"@,
        JoinKind::Single => "std :: iter :: once ("@ + access + ")"@,
    }
}

/// The source text of a derived implementation.
pub open spec fn source_text(imp: JoinableImpl) -> Seq<char> {
    "impl "@ + imp.impl_generics@ + " Joinable for "@ + imp.ident@ + " "@ + imp.ty_generics@ + " "@
        + imp.where_clause@ + " { type Mapper = "@ + spec_mapper_name(imp.kind)
        + " ; type Out < 'a > = "@ + out_type_text(imp.kind) + " where Self : 'a ; "@
        + "fn targets (& self) -> Self :: Out < '_ > { "@ + targets_text(imp.kind, access_text(imp.access))
        + " } }"@
}

impl JoinableImpl {
    fn access_expr(&self) -> (text: String)
        ensures
            text@ == access_text(self.access),
    {
        let mut text = String::from_str("self . ");
        match &self.access {
            FieldAccess::Named(name) => text.append(name.as_str()),
            FieldAccess::Index(i) => {
                let index = decimal(*i);
                text.append(index.as_str());
            },
        }
        text
    }

    /// The source text of the implementation, as tokens separated by
    /// spaces.
    pub fn to_source(&self) -> (text: String)
        ensures
            text@ == source_text(*self),
    {
        let access = self.access_expr();
        let mut text = String::from_str("impl ");
        text.append(self.impl_generics.as_str());
        text.append(" Joinable for ");
        text.append(self.ident.as_str());
        text.append(" ");
        text.append(self.ty_generics.as_str());
        text.append(" ");
        text.append(self.where_clause.as_str());
        text.append(" { type Mapper = ");
        text.append(self.kind.mapper_name());
        text.append(" ; type Out < 'a > = ");
        match self.kind {
            JoinKind::Multiple => {
                text.append(
                    "std :: iter :: Cloned < std :: slice :: Iter < 'a , bevy_ecs :: prelude :: Entity > >",
                );
                text.append(" where Self : 'a ; ");
                text.append("fn targets (& self) -> Self :: Out < '_ > { ");
                text.append(access.as_str());
                text.append(" . iter () . cloned ()");
            },
            JoinKind::Single => {
                text.append("std :: iter :: Once < bevy_ecs :: prelude :: Entity >");
                text.append(" where Self : 'a ; ");
                text.append("fn targets (& self) -> Self :: Out < '_ > { ");
                text.append("std :: iter :: once (");
                text.append(access.as_str());
                text.append(")");
            },
        }
        text.append(" } }");
        text
    }
}

} // verus!
