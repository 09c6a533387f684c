use go_away::case::{to_camel_case, to_pascal_case, to_screaming_snake_case};
use go_away::go::go_struct;
use go_away::kotlin::kotlin_type::KotlinType;
use go_away::swift::swift_type::SwiftType;
use go_away::tabify::tabify;
use go_away::types::{Enum, EnumVariant, Field, FieldType, NewType, Primitive, Struct, TypeRef};
use go_away::typescript::TypeScriptType;
use go_away::{registry_to_output, GoType, TypeId, TypeKind, TypeMetadata, TypeRegistry};
use std::collections::HashMap;

#[test]
fn pascal_case_conversions() {
    assert_eq!(to_pascal_case("a_string"), "AString");
    assert_eq!(to_pascal_case("field_one"), "FieldOne");
    assert_eq!(to_pascal_case("_leading__double"), "LeadingDouble");
    assert_eq!(to_pascal_case("SHOUT"), "Shout");
    assert_eq!(to_pascal_case(""), "");
}

#[test]
fn camel_case_conversions() {
    assert_eq!(to_camel_case("a_string"), "aString");
    assert_eq!(to_camel_case("optionalFloat"), "optionalFloat");
    assert_eq!(to_camel_case("Delivery"), "delivery");
    assert_eq!(to_camel_case("VarOne"), "varOne");
    assert_eq!(to_camel_case(""), "");
}

#[test]
fn screaming_snake_case_conversions() {
    assert_eq!(to_screaming_snake_case("FulfilmentType"), "FULFILMENT_TYPE");
    assert_eq!(to_screaming_snake_case("Delivery"), "DELIVERY");
    assert_eq!(to_screaming_snake_case("a_b"), "A_B");
    assert_eq!(to_screaming_snake_case(""), "");
}

#[test]
fn test_tabify() {
    let mut buffer = tabify();
    buffer.write_str(
        "Hello There\n    Hopefully I am indented with tabs\n        Ever so slightly at least\n    You tell me?\n            What about now?\n            Is this indented more?\n",
    );
    assert_eq!(
        buffer.inner,
        "Hello There\n\tHopefully I am indented with tabs\n\t\tEver so slightly at least\n\tYou tell me?\n\t\t\tWhat about now?\n\t\t\tIs this indented more?\n"
    );
}

#[test]
fn tabify_keeps_short_runs() {
    let mut buffer = tabify();
    buffer.write_str("a   b     c");
    assert_eq!(buffer.inner, "a   b\t c");
}

struct A;
struct B;

fn user_id() -> NewType {
    NewType { name: "UserId".into(), inner: FieldType::Primitive(Primitive::String) }
}

#[test]
fn registering_twice_keeps_one_entry() {
    let mut registry = TypeRegistry::new();
    let first = registry.register_newtype(TypeId::for_type::<A>(), user_id());
    let second = registry.register_newtype(
        TypeId::for_type::<A>(),
        NewType { name: "Other".into(), inner: FieldType::Primitive(Primitive::Int) },
    );
    assert_eq!(registry.len(), 1);
    assert_eq!(first.name(), "UserId");
    assert_eq!(second.name(), "UserId");
    assert_eq!(registry_to_output::<GoType>(&registry).unwrap(), "type UserId string\n");
}

#[test]
fn distinct_ids_are_distinct_entries() {
    let mut registry = TypeRegistry::new();
    registry.register_newtype(TypeId::for_type::<A>(), user_id());
    registry.register_newtype(TypeId::for_type::<B>(), user_id());
    registry.register_newtype(TypeId::for_variant::<A>("V"), user_id());
    registry.register_newtype(TypeId::for_variant::<A>("W"), user_id());
    registry.register_newtype(TypeId::for_variant::<A>("V"), user_id());
    assert_eq!(registry.len(), 4);
    assert_eq!(registry.kind_of(&TypeId::for_type::<B>()), Some(TypeKind::NewType));
    assert_eq!(registry.kind_of(&TypeId::for_variant::<B>("V")), None);
}

#[test]
fn output_order_is_by_category_latest_first() {
    let mut registry = TypeRegistry::new();
    registry.register_newtype(TypeId::for_type::<A>(), user_id());
    registry.register_enum(
        TypeId::for_type::<B>(),
        Enum {
            name: "E".into(),
            variants: vec![EnumVariant { name: "X".into(), serialized_name: "x".into() }],
        },
    );
    registry.register_struct(TypeId::for_variant::<A>("S"), Struct { name: "S".into(), fields: vec![] });
    registry.register_struct(TypeId::for_variant::<A>("T"), Struct { name: "T".into(), fields: vec![] });
    assert_eq!(
        registry_to_output::<GoType>(&registry).unwrap(),
        "type T struct {\n}\ntype S struct {\n}\ntype UserId string\ntype E string\n\nconst (\n\tX E = \"x\"\n)\n"
    );
}

#[test]
fn time_is_unsupported_in_kotlin_and_swift() {
    let mut registry = TypeRegistry::new();
    registry.register_newtype(
        TypeId::for_type::<A>(),
        NewType { name: "Stamp".into(), inner: FieldType::Primitive(Primitive::Time) },
    );
    assert_eq!(registry_to_output::<KotlinType>(&registry).unwrap_err().name, "Stamp");
    assert_eq!(registry_to_output::<SwiftType>(&registry).unwrap_err().name, "Stamp");
    assert_eq!(registry_to_output::<GoType>(&registry).unwrap(), "type Stamp time.Time\n");
    assert_eq!(registry_to_output::<TypeScriptType>(&registry).unwrap(), "type Stamp = string;\n");
}

fn nested() -> Struct {
    Struct {
        name: "Nested".into(),
        fields: vec![
            Field {
                name: "a_string".into(),
                serialized_name: "some_other_name".into(),
                ty: FieldType::Primitive(Primitive::String),
            },
            Field { name: "an_int".into(), serialized_name: "an_int".into(), ty: FieldType::Primitive(Primitive::Int) },
            Field {
                name: "fulfilment_type".into(),
                serialized_name: "fulfilment_type".into(),
                ty: FieldType::Named(TypeRef { name: "FulfilmentType".into() }),
            },
        ],
    }
}

#[test]
fn renamed_field_keeps_model_identifier_and_wire_tag() {
    let s = nested();
    assert!(go_struct(&s).contains("\tAString string `json:\"some_other_name\"`\n"));
    let kotlin = KotlinType::Struct(&s).render().unwrap();
    assert!(kotlin.contains("    @SerialName(\"some_other_name\")\n    public var aString: String,\n"));
    let swift = SwiftType::Struct(&s).render().unwrap();
    assert!(swift.contains("    public var aString: String\n"));
    assert!(swift.contains("        case aString = \"some_other_name\"\n"));
    let typescript = TypeScriptType::Struct(&s).render().unwrap();
    assert!(typescript.contains("    some_other_name: string;\n"));
}

#[test]
fn metadata_of_standard_types() {
    let mut registry = TypeRegistry::new();
    let ty = <Vec<Option<HashMap<String, uuid::Uuid>>> as TypeMetadata>::metadata(&mut registry);
    assert_eq!(ty.go_type(), "[]*map[string]string");
    assert_eq!(<u8 as TypeMetadata>::metadata(&mut registry).typescript_type(), "number");
    assert_eq!(<bool as TypeMetadata>::metadata(&mut registry).swift_type(), "Bool");
    assert_eq!(registry.len(), 0);
}

#[test]
fn type_ids_clone_and_compare() {
    let a = TypeId::for_type::<A>();
    assert!(a.clone() == a);
    assert!(TypeId::for_type::<A>() != TypeId::for_type::<B>());
    assert!(TypeId::for_alias::<A>() != TypeId::for_type::<A>());
    assert!(TypeId::for_variant::<A>("V") == TypeId::for_variant::<A>("V"));
    assert!(TypeId::for_variant::<A>("V") != TypeId::for_variant::<A>("W"));
    let mut seen = std::collections::HashSet::new();
    seen.insert(TypeId::for_type::<A>());
    seen.insert(TypeId::for_type::<A>());
    seen.insert(TypeId::for_type::<B>());
    assert_eq!(seen.len(), 2);
}

fn unnamed_union(representation: go_away::types::UnionRepresentation) -> go_away::types::Union {
    go_away::types::Union {
        name: "Shape".into(),
        representation,
        variants: vec![
            go_away::types::UnionVariant {
                name: None,
                ty: FieldType::Named(TypeRef { name: "Circle".into() }),
                serialized_name: "CIRCLE".into(),
            },
            go_away::types::UnionVariant {
                name: Some("Square".into()),
                ty: FieldType::Named(TypeRef { name: "Box".into() }),
                serialized_name: "SQUARE".into(),
            },
        ],
    }
}

#[test]
fn unnamed_variant_takes_its_type_name_in_kotlin() {
    let u = unnamed_union(go_away::types::UnionRepresentation::ExternallyTagged);
    let out = KotlinType::Union(&u).render().unwrap();
    assert!(out.contains("    data class circle(\n        @SerialName(\"value\")\n        public var value: Circle,\n    ): Shape\n"));
    assert!(out.contains("element<Shape.circle>(\"CIRCLE\", isOptional = true)"));
    assert!(out.contains("element<Shape.square>(\"SQUARE\", isOptional = true)"));
}

#[test]
fn unnamed_variant_takes_its_type_name_in_swift() {
    let u = unnamed_union(go_away::types::UnionRepresentation::ExternallyTagged);
    let out = SwiftType::Union(&u).render().unwrap();
    assert!(out.contains("    case circle(Circle)\n    case square(Box)\n"));
    assert!(out.contains("        case circle = \"CIRCLE\"\n"));
}
