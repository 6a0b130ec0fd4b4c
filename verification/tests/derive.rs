use bevy_spliff::derive::{
    analyze_fields, expand_joinable, is_vec, DataShape, DeriveError, DeriveShape, FieldAccess,
    FieldShape, TypeShape, AMBIGUOUS_FIELDS, NO_FIELDS, ONLY_STRUCTS,
};
use bevy_spliff::mapping::JoinKind;

fn path(last: &str) -> TypeShape {
    TypeShape::Path {
        last_segment: Some(last.to_string()),
    }
}

fn field(ident: Option<&str>, attrs: &[&str], ty: TypeShape) -> FieldShape {
    FieldShape {
        ident: ident.map(|i| i.to_string()),
        attribute_paths: attrs.iter().map(|a| Some(a.to_string())).collect(),
        ty,
    }
}

fn item(name: &str, data: DataShape) -> DeriveShape {
    DeriveShape {
        ident: name.to_string(),
        impl_generics: String::new(),
        ty_generics: String::new(),
        where_clause: String::new(),
        data,
    }
}

// struct Player(Entity);
#[test]
fn single_tuple_should_fallback_to_single_join() {
    let input = item("Player", DataShape::Struct(vec![field(None, &[], path("Entity"))]));

    let res = expand_joinable(&input);

    let output = res.unwrap().to_source();
    assert!(output.contains("SingleJoin"));
    assert!(output.contains("self . 0"));
}

// struct Player(Vec<Entity>);
#[test]
fn single_tuple_vec_should_fallback_to_multiple_join() {
    let input = item("Player", DataShape::Struct(vec![field(None, &[], path("Vec"))]));

    let res = expand_joinable(&input);

    let output = res.unwrap().to_source();
    assert!(output.contains("MultipleJoin"));
    assert!(output.contains("self . 0"));
}

// struct Offset(f32, #[join] Entity);
#[test]
fn multi_tuple_with_join_should_target_index() {
    let input = item(
        "Offset",
        DataShape::Struct(vec![
            field(None, &[], path("f32")),
            field(None, &["join"], path("Entity")),
        ]),
    );

    let res = expand_joinable(&input);

    let output = res.unwrap().to_source();
    assert!(output.contains("self . 1"));
}

// struct Armor { val: f32, #[join] target: Entity }
#[test]
fn named_field_with_join_should_target_ident() {
    let input = item(
        "Armor",
        DataShape::Struct(vec![
            field(Some("val"), &[], path("f32")),
            field(Some("target"), &["join"], path("Entity")),
        ]),
    );

    let res = expand_joinable(&input);

    let output = res.unwrap().to_source();
    assert!(output.contains("self . target"));
}

// struct WeaponOf(#[relationship(target = Weapons)] Entity);
#[test]
fn relationship_attribute_should_target_field() {
    let input = item(
        "WeaponOf",
        DataShape::Struct(vec![field(None, &["relationship"], path("Entity"))]),
    );

    let res = expand_joinable(&input);

    let output = res.unwrap().to_source();
    assert!(output.contains("self . 0"));
}

// struct Weapons(#[relationship_target(rel = WeaponOf)] Vec<Entity>);
#[test]
fn relationship_target_attribute_should_target_vec_field() {
    let input = item(
        "Weapons",
        DataShape::Struct(vec![field(None, &["relationship_target"], path("Vec"))]),
    );

    let res = expand_joinable(&input);

    let output = res.unwrap().to_source();
    assert!(output.contains("MultipleJoin"));
    assert!(output.contains("self . 0"));
}

// Option<Entity>
#[test]
fn is_vec_should_fail_on_non_vec_path() {
    let ty = path("Option");

    let res = is_vec(&ty);

    assert!(!res);
}

// &Entity
#[test]
fn is_vec_should_fail_on_non_path() {
    let ty = TypeShape::Other;

    let res = is_vec(&ty);

    assert!(!res);
}

// u32
#[test]
fn is_vec_should_fail_on_plain_type() {
    let ty = path("u32");

    let res = is_vec(&ty);

    assert!(!res);
}

// enum NotStruct { V }
#[test]
fn expansion_should_error_on_enum() {
    let input = item("NotStruct", DataShape::Enum);

    let res = expand_joinable(&input);

    assert_eq!(res.unwrap_err().message(), ONLY_STRUCTS);
}

// union NotSupported { f: Entity }
#[test]
fn expansion_should_error_on_union() {
    let input = item("NotSupported", DataShape::Union);

    let res = expand_joinable(&input);

    assert_eq!(res.unwrap_err().message(), ONLY_STRUCTS);
}

// struct Empty;
#[test]
fn expansion_should_error_on_empty_struct() {
    let input = item("Empty", DataShape::Struct(vec![]));

    let res = expand_joinable(&input);

    assert_eq!(res.unwrap_err().message(), NO_FIELDS);
}

// struct Ambi(Entity, Entity);
#[test]
fn expansion_should_error_on_ambiguous_fields() {
    let input = item(
        "Ambi",
        DataShape::Struct(vec![
            field(None, &[], path("Entity")),
            field(None, &[], path("Entity")),
        ]),
    );

    let res = expand_joinable(&input);

    assert_eq!(res.unwrap_err().message(), AMBIGUOUS_FIELDS);
}

#[test]
fn is_vec_accepts_vec_path() {
    assert!(is_vec(&path("Vec")));
    assert!(!is_vec(&TypeShape::Path { last_segment: None }));
}

#[test]
fn first_marked_field_wins_over_later_marks() {
    let fields = vec![
        field(Some("a"), &["doc"], path("u8")),
        field(Some("b"), &["relationship"], path("Entity")),
        field(Some("c"), &["join"], path("Vec")),
    ];
    assert_eq!(analyze_fields(&fields).unwrap(), 1);
}

#[test]
fn unmarked_single_field_is_picked_even_with_other_attributes() {
    let fields = vec![field(Some("only"), &["serde"], path("Entity"))];
    assert_eq!(analyze_fields(&fields).unwrap(), 0);
}

#[test]
fn attribute_with_non_identifier_path_does_not_mark() {
    let mut f = field(None, &[], path("Entity"));
    f.attribute_paths.push(None);
    let fields = vec![f, field(None, &[], path("Entity"))];
    assert_eq!(analyze_fields(&fields).unwrap_err(), DeriveError::AmbiguousFields);
}

#[test]
fn errors_name_their_cause() {
    assert_eq!(DeriveError::OnlyStructs.message(), ONLY_STRUCTS);
    assert_eq!(DeriveError::NoFields.message(), NO_FIELDS);
    assert_eq!(DeriveError::AmbiguousFields.message(), AMBIGUOUS_FIELDS);
}

#[test]
fn expansion_keeps_name_generics_and_field() {
    let mut input = item(
        "Holder",
        DataShape::Struct(vec![field(Some("targets"), &["join"], path("Vec"))]),
    );
    input.impl_generics = "< T >".to_string();
    input.ty_generics = "< T >".to_string();
    input.where_clause = "where T : Send".to_string();

    let imp = expand_joinable(&input).unwrap();

    assert_eq!(imp.ident, "Holder");
    assert_eq!(imp.kind, JoinKind::Multiple);
    assert!(matches!(&imp.access, FieldAccess::Named(n) if n == "targets"));
    assert_eq!(
        imp.to_source(),
        "impl < T > Joinable for Holder < T > where T : Send { type Mapper = MultipleJoin ; \
         type Out < 'a > = std :: iter :: Cloned < std :: slice :: Iter < 'a , bevy_ecs :: prelude :: Entity > > \
         where Self : 'a ; fn targets (& self) -> Self :: Out < '_ > { self . targets . iter () . cloned () } }"
    );
}

#[test]
fn single_join_source_wraps_field_in_once() {
    let input = item(
        "Link",
        DataShape::Struct(vec![
            field(None, &[], path("u8")),
            field(None, &[], path("u8")),
            field(None, &[], path("u8")),
            field(None, &[], path("u8")),
            field(None, &[], path("u8")),
            field(None, &[], path("u8")),
            field(None, &[], path("u8")),
            field(None, &[], path("u8")),
            field(None, &[], path("u8")),
            field(None, &[], path("u8")),
            field(None, &[], path("u8")),
            field(None, &[], path("u8")),
            field(None, &["join"], path("Entity")),
        ]),
    );

    let source = expand_joinable(&input).unwrap().to_source();

    assert_eq!(
        source,
        "impl  Joinable for Link   { type Mapper = SingleJoin ; \
         type Out < 'a > = std :: iter :: Once < bevy_ecs :: prelude :: Entity > \
         where Self : 'a ; fn targets (& self) -> Self :: Out < '_ > { std :: iter :: once (self . 12) } }"
    );
}
