use std::collections::HashMap;

use go_away::types::{
    Enum, EnumVariant, Field, FieldType, Struct, Union, UnionRepresentation, UnionVariant,
};
use go_away::{
    registry_to_output, GoType, KotlinType, SwiftType, TypeAlias, TypeId, TypeMetadata,
    TypeRegistry, TypeScriptType,
};

struct MyData;
struct Nested;
struct FulfilmentType;
struct One;
struct Two;
struct NewTypeEnum;
struct StructEnum;
struct InternallyTaggedTupleEnum;
struct ExternallyTaggedTupleEnum;
struct AdjacentlyTaggedTupleEnums;
struct UntaggedTupleEnum;
struct TypeWithLifetimes;

fn field(name: &str, serialized_name: &str, ty: FieldType) -> Field {
    Field { name: name.into(), serialized_name: serialized_name.into(), ty }
}

impl TypeMetadata for FulfilmentType {
    fn metadata(registry: &mut TypeRegistry) -> FieldType {
        let details = Enum {
            name: "FulfilmentType".into(),
            variants: vec![
                EnumVariant { name: "Delivery".into(), serialized_name: "Delivery".into() },
                EnumVariant { name: "Collection".into(), serialized_name: "Collection".into() },
            ],
        };
        FieldType::Named(registry.register_enum(TypeId::for_type::<FulfilmentType>(), details))
    }
}

impl TypeMetadata for Nested {
    fn metadata(registry: &mut TypeRegistry) -> FieldType {
        let fields = vec![
            field("a_string", "some_other_name", String::metadata(registry)),
            field("an_int", "an_int", i64::metadata(registry)),
            field("fulfilment_type", "fulfilment_type", FulfilmentType::metadata(registry)),
        ];
        let details = Struct { name: "Nested".into(), fields };
        FieldType::Named(registry.register_struct(TypeId::for_type::<Nested>(), details))
    }
}

impl TypeMetadata for MyData {
    fn metadata(registry: &mut TypeRegistry) -> FieldType {
        let fields = vec![
            field("field_one", "field_one", String::metadata(registry)),
            field("nested", "nested", Nested::metadata(registry)),
        ];
        let details = Struct { name: "MyData".into(), fields };
        FieldType::Named(registry.register_struct(TypeId::for_type::<MyData>(), details))
    }
}

impl TypeMetadata for One {
    fn metadata(registry: &mut TypeRegistry) -> FieldType {
        let fields = vec![field(
            "x",
            "x",
            FieldType::Primitive(go_away::types::Primitive::Float),
        )];
        let details = Struct { name: "One".into(), fields };
        FieldType::Named(registry.register_struct(TypeId::for_type::<One>(), details))
    }
}

impl TypeMetadata for Two {
    fn metadata(registry: &mut TypeRegistry) -> FieldType {
        let fields = vec![field("y", "y", bool::metadata(registry))];
        let details = Struct { name: "Two".into(), fields };
        FieldType::Named(registry.register_struct(TypeId::for_type::<Two>(), details))
    }
}

fn tuple_union<T: 'static>(
    registry: &mut TypeRegistry,
    name: &str,
    representation: UnionRepresentation,
    names: [&str; 2],
) -> FieldType {
    let variants = vec![
        UnionVariant {
            name: Some(names[0].into()),
            ty: One::metadata(registry),
            serialized_name: names[0].into(),
        },
        UnionVariant {
            name: Some(names[1].into()),
            ty: Two::metadata(registry),
            serialized_name: names[1].into(),
        },
    ];
    let details = Union { name: name.into(), representation, variants };
    FieldType::Named(registry.register_union(TypeId::for_type::<T>(), details))
}

fn adjacent() -> UnionRepresentation {
    UnionRepresentation::AdjacentlyTagged { tag: "type".into(), content: "data".into() }
}

impl TypeMetadata for NewTypeEnum {
    fn metadata(registry: &mut TypeRegistry) -> FieldType {
        tuple_union::<NewTypeEnum>(registry, "NewTypeEnum", adjacent(), ["OptionOne", "OptionTwo"])
    }
}

impl TypeMetadata for InternallyTaggedTupleEnum {
    fn metadata(registry: &mut TypeRegistry) -> FieldType {
        tuple_union::<InternallyTaggedTupleEnum>(
            registry,
            "InternallyTaggedTupleEnum",
            UnionRepresentation::InternallyTagged { tag: "type".into() },
            ["One", "Two"],
        )
    }
}

impl TypeMetadata for ExternallyTaggedTupleEnum {
    fn metadata(registry: &mut TypeRegistry) -> FieldType {
        tuple_union::<ExternallyTaggedTupleEnum>(
            registry,
            "ExternallyTaggedTupleEnum",
            UnionRepresentation::ExternallyTagged,
            ["One", "Two"],
        )
    }
}

impl TypeMetadata for AdjacentlyTaggedTupleEnums {
    fn metadata(registry: &mut TypeRegistry) -> FieldType {
        tuple_union::<AdjacentlyTaggedTupleEnums>(
            registry,
            "AdjacentlyTaggedTupleEnums",
            adjacent(),
            ["One", "Two"],
        )
    }
}

impl TypeMetadata for UntaggedTupleEnum {
    fn metadata(registry: &mut TypeRegistry) -> FieldType {
        tuple_union::<UntaggedTupleEnum>(
            registry,
            "UntaggedTupleEnum",
            UnionRepresentation::Untagged,
            ["A", "B"],
        )
    }
}

impl TypeMetadata for StructEnum {
    fn metadata(registry: &mut TypeRegistry) -> FieldType {
        let option_one = Struct {
            name: "OptionOne".into(),
            fields: vec![
                field("x", "x", String::metadata(registry)),
                field("y", "y", i32::metadata(registry)),
            ],
        };
        let one = registry.register_struct(TypeId::for_variant::<StructEnum>("OptionOne"), option_one);
        let option_two = Struct {
            name: "OptionTwo".into(),
            fields: vec![
                field("foo", "foo", String::metadata(registry)),
                field("bar", "bar", Nested::metadata(registry)),
            ],
        };
        let two = registry.register_struct(TypeId::for_variant::<StructEnum>("OptionTwo"), option_two);
        let details = Union {
            name: "StructEnum".into(),
            representation: adjacent(),
            variants: vec![
                UnionVariant {
                    name: Some("OptionOne".into()),
                    ty: FieldType::Named(one),
                    serialized_name: "OptionOne".into(),
                },
                UnionVariant {
                    name: Some("OptionTwo".into()),
                    ty: FieldType::Named(two),
                    serialized_name: "OptionTwo".into(),
                },
            ],
        };
        FieldType::Named(registry.register_union(TypeId::for_type::<StructEnum>(), details))
    }
}

impl TypeMetadata for TypeWithLifetimes {
    fn metadata(registry: &mut TypeRegistry) -> FieldType {
        let fields = vec![
            field("data", "data", str::metadata(registry)),
            field("other", "other", str::metadata(registry)),
        ];
        let details = Struct { name: "TypeWithLifetimes".into(), fields };
        FieldType::Named(registry.register_struct(TypeId::for_type::<TypeWithLifetimes>(), details))
    }
}

fn registry_of<T: TypeMetadata>() -> TypeRegistry {
    let mut registry = TypeRegistry::new();
    T::metadata(&mut registry);
    registry
}

fn go<T: TypeMetadata>() -> String {
    registry_to_output::<GoType>(&registry_of::<T>()).unwrap()
}

fn typescript<T: TypeMetadata>() -> String {
    registry_to_output::<TypeScriptType>(&registry_of::<T>()).unwrap()
}

const GO_NESTED: &str = "type Nested struct {\n\tAString string `json:\"some_other_name\"`\n\tAnInt int `json:\"an_int\"`\n\tFulfilmentType FulfilmentType `json:\"fulfilment_type\"`\n}\n";
const GO_FULFILMENT: &str = "type FulfilmentType string\n\nconst (\n\tDelivery FulfilmentType = \"Delivery\"\n\tCollection FulfilmentType = \"Collection\"\n)\n";
const GO_MY_DATA: &str = "type MyData struct {\n\tFieldOne string `json:\"field_one\"`\n\tNested Nested `json:\"nested\"`\n}\n";

// Go

#[test]
fn go_output_test_struct_output() {
    assert_eq!(go::<MyData>(), format!("{GO_MY_DATA}{GO_NESTED}{GO_FULFILMENT}"));
}

#[test]
fn go_output_test_newtype_enum() {
    let out = go::<NewTypeEnum>();
    assert!(out.starts_with(
        "type Two struct {\n\tY bool `json:\"y\"`\n}\ntype One struct {\n\tX float64 `json:\"x\"`\n}\ntype NewTypeEnum struct {\n\tOptionOne *One\n\tOptionTwo *Two\n}\n\n"
    ));
    assert!(out.contains("\"type\": \"OptionTwo\", \"data\": self.OptionTwo"));
}

#[test]
fn go_output_test_struct_enum() {
    let out = go::<StructEnum>();
    assert!(out.starts_with("type OptionTwo struct {\n"));
    assert!(out.contains("type OptionOne struct {\n\tX string `json:\"x\"`\n\tY int `json:\"y\"`\n}\n"));
    assert!(out.contains("type StructEnum struct {\n\tOptionOne *OptionOne\n\tOptionTwo *OptionTwo\n}\n\n"));
    assert!(out.ends_with(GO_FULFILMENT));
}

#[test]
fn go_output_test_internally_tagged_tuple_enum() {
    let out = go::<InternallyTaggedTupleEnum>();
    assert!(out.contains("\t\toutput[\"type\"] = \"One\"\n\t\treturn json.Marshal(output)\n"));
    assert!(out.contains("\tcase \"Two\":\n\t\tvar value Two\n\t\tif err := json.Unmarshal(data, &value); err != nil {\n"));
}

#[test]
fn go_output_lifetimes_and_strs() {
    assert_eq!(
        go::<TypeWithLifetimes>(),
        "type TypeWithLifetimes struct {\n\tData string `json:\"data\"`\n\tOther string `json:\"other\"`\n}\n"
    );
}

#[test]
fn go_output_type_deduplication() {
    let mut registry = TypeRegistry::new();
    StructEnum::metadata(&mut registry);
    MyData::metadata(&mut registry);
    let out = registry_to_output::<GoType>(&registry).unwrap();
    assert_eq!(out.matches("type Nested struct {").count(), 1);
    assert_eq!(out.matches("type FulfilmentType string").count(), 1);
    assert!(out.starts_with(GO_MY_DATA));
}

#[test]
fn go_output_type_aliases() {
    let mut registry = TypeRegistry::new();
    <HashMap<String, i64> as TypeAlias>::register_as_alias("MyType", &mut registry);
    assert_eq!(registry_to_output::<GoType>(&registry).unwrap(), "type MyType map[string]int\n");
}

#[test]
fn output_test_struct_output() {
    assert!(go::<MyData>().contains(GO_NESTED));
}

#[test]
fn output_test_newtype_enum() {
    assert!(go::<NewTypeEnum>().contains("func (self *NewTypeEnum) UnmarshalJSON(data []byte) error {\n"));
}

#[test]
fn output_test_struct_enum() {
    assert!(go::<StructEnum>().contains("func (self StructEnum) MarshalJSON() ([]byte, error) {\n"));
}

#[test]
fn output_test_internally_tagged_tuple_enum() {
    assert!(go::<InternallyTaggedTupleEnum>()
        .contains("func (u InternallyTaggedTupleEnum) Validate() error {\n"));
}

// Swift

#[test]
fn swift_output_test_struct_output() {
    let out = registry_to_output::<SwiftType>(&registry_of::<MyData>()).unwrap();
    assert!(out.starts_with("public struct MyData: Hashable, Codable {\n"));
    assert!(out.contains("        case aString = \"some_other_name\"\n"));
    assert!(out.ends_with("public enum FulfilmentType : String, Codable {\n    case delivery = \"Delivery\"\n    case collection = \"Collection\"\n}\n\n\n"));
}

#[test]
fn test_adjacently_tagged_tuple_enums() {
    let out = registry_to_output::<SwiftType>(&registry_of::<AdjacentlyTaggedTupleEnums>()).unwrap();
    assert!(out.contains("public enum AdjacentlyTaggedTupleEnums {\n    case one(One)\n    case two(Two)\n"));
    assert!(out.contains("let key = try container.decode(AdjacentlyTaggedTupleEnums.CodingKeys.self, forKey: .tag)"));
}

#[test]
fn swift_output_test_externally_tagged_tuple_enum() {
    let out = registry_to_output::<SwiftType>(&registry_of::<ExternallyTaggedTupleEnum>()).unwrap();
    assert!(out.contains("if container.contains(.one) {\n"));
    assert!(out.contains("try container.encode(data, forKey: .two)\n"));
}

#[test]
fn swift_output_lifetimes_and_strs() {
    let out = registry_to_output::<SwiftType>(&registry_of::<TypeWithLifetimes>()).unwrap();
    assert!(out.starts_with("public struct TypeWithLifetimes: Hashable, Codable {\n    public var data: String\n    public var other: String\n"));
}

#[test]
fn swift_output_type_deduplication() {
    let mut registry = TypeRegistry::new();
    Nested::metadata(&mut registry);
    MyData::metadata(&mut registry);
    let out = registry_to_output::<SwiftType>(&registry).unwrap();
    assert_eq!(out.matches("public struct Nested:").count(), 1);
}

#[test]
fn swift_output_type_aliases() {
    let mut registry = TypeRegistry::new();
    <HashMap<String, i64> as TypeAlias>::register_as_alias("MyType", &mut registry);
    assert_eq!(
        registry_to_output::<SwiftType>(&registry).unwrap(),
        "typealias MyType = [String: Int64]\n"
    );
}

// TypeScript

#[test]
fn typescript_output_test_struct_output() {
    assert_eq!(
        typescript::<MyData>(),
        "type MyData = {\n    field_one: string;\n    nested: Nested;\n}\ntype Nested = {\n    some_other_name: string;\n    an_int: number;\n    fulfilment_type: FulfilmentType;\n}\nenum FulfilmentType {\n    Delivery = \"Delivery\",\n    Collection = \"Collection\",\n}\n"
    );
}

#[test]
fn typescript_output_test_newtype_enum() {
    assert!(typescript::<NewTypeEnum>().contains(
        "type NewTypeEnum = { \"type\": \"OptionOne\", \"data\": One } | { \"type\": \"OptionTwo\", \"data\": Two };\n"
    ));
}

#[test]
fn typescript_output_test_struct_enum() {
    assert!(typescript::<StructEnum>().contains(
        "type StructEnum = { \"type\": \"OptionOne\", \"data\": OptionOne } | { \"type\": \"OptionTwo\", \"data\": OptionTwo };\n"
    ));
}

#[test]
fn typescript_output_test_internally_tagged_tuple_enum() {
    assert!(typescript::<InternallyTaggedTupleEnum>().contains(
        "type InternallyTaggedTupleEnum = ({ \"type\": \"One\" } & One) | ({ \"type\": \"Two\" } & Two);\n"
    ));
}

#[test]
fn typescript_output_test_externally_tagged_tuple_enum() {
    assert!(typescript::<ExternallyTaggedTupleEnum>().contains(
        "type ExternallyTaggedTupleEnum = { \"One\": One } | { \"Two\": Two };\n"
    ));
}

#[test]
fn test_untagged_tuple_enum() {
    assert!(typescript::<UntaggedTupleEnum>().contains("type UntaggedTupleEnum = One | Two;\n"));
}

#[test]
fn typescript_output_lifetimes_and_strs() {
    assert_eq!(
        typescript::<TypeWithLifetimes>(),
        "type TypeWithLifetimes = {\n    data: string;\n    other: string;\n}\n"
    );
}

#[test]
fn typescript_output_type_deduplication() {
    let mut registry = TypeRegistry::new();
    StructEnum::metadata(&mut registry);
    MyData::metadata(&mut registry);
    let out = registry_to_output::<TypeScriptType>(&registry).unwrap();
    assert_eq!(out.matches("type Nested = {").count(), 1);
}

#[test]
fn typescript_output_type_aliases() {
    let mut registry = TypeRegistry::new();
    <HashMap<String, i64> as TypeAlias>::register_as_alias("MyType", &mut registry);
    assert_eq!(
        registry_to_output::<TypeScriptType>(&registry).unwrap(),
        "type MyType = Record<string, number>;\n"
    );
}

// Kotlin

#[test]
fn kotlin_output_rejects_unsupported_unions() {
    let err = registry_to_output::<KotlinType>(&registry_of::<NewTypeEnum>()).unwrap_err();
    assert_eq!(err.name, "NewTypeEnum");
    let out = registry_to_output::<KotlinType>(&registry_of::<ExternallyTaggedTupleEnum>()).unwrap();
    assert!(out.contains("sealed interface ExternallyTaggedTupleEnum {\n"));
    assert!(out.contains("composite.encodeSerializableElement(descriptor, 1, ExternallyTaggedTupleEnum.two.serializer(), value as ExternallyTaggedTupleEnum.two)"));
    assert!(out.contains("element<ExternallyTaggedTupleEnum.one>(\"One\", isOptional = true)"));
}

#[test]
fn alias_of_registered_type_is_separate_entry() {
    let mut registry = TypeRegistry::new();
    Nested::metadata(&mut registry);
    <Nested as TypeAlias>::register_as_alias("NestedAlias", &mut registry);
    <Nested as TypeAlias>::register_as_alias("NestedAlias", &mut registry);
    assert_eq!(registry.len(), 3);
    let out = registry_to_output::<GoType>(&registry).unwrap();
    assert!(out.starts_with(GO_NESTED));
    assert!(out.ends_with("type NestedAlias Nested\n"));
}

#[test]
fn alias_registration_adds_named_alias() {
    let mut registry = TypeRegistry::new();
    <Vec<String> as TypeAlias>::register_as_alias("Names", &mut registry);
    assert_eq!(registry.len(), 1);
    assert_eq!(registry_to_output::<TypeScriptType>(&registry).unwrap(), "type Names = string[];\n");
}
