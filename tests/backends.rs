use go_away::go::{go_enum, go_newtype, go_struct, go_union, UnionValidate};
use go_away::kotlin::kotlin_type::KotlinType;
use go_away::swift::swift_type::SwiftType;
use go_away::typescript::TypeScriptType;
use go_away::types::{
    Alias, Enum, EnumVariant, Field, FieldType, NewType, Primitive, Struct, TypeRef, Union,
    UnionRepresentation, UnionVariant,
};

fn field(name: &str, serialized_name: &str, ty: FieldType) -> Field {
    Field { name: name.into(), serialized_name: serialized_name.into(), ty }
}

fn named(name: &str) -> FieldType {
    FieldType::Named(TypeRef { name: name.into() })
}

fn primitive_struct() -> Struct {
    Struct {
        name: "MyStruct".into(),
        fields: vec![
            field("a_string", "a_string", FieldType::Primitive(Primitive::String)),
            field("an_int", "renamed_tho", FieldType::Primitive(Primitive::Int)),
            field("a_bool", "also_renamed", FieldType::Primitive(Primitive::Bool)),
            field("a_float", "a_float", FieldType::Primitive(Primitive::Float)),
        ],
    }
}

fn fulfilment_enum() -> Enum {
    Enum {
        name: "FulfilmentType".into(),
        variants: vec![
            EnumVariant { name: "Delivery".into(), serialized_name: "DELIVERY".into() },
            EnumVariant { name: "Collection".into(), serialized_name: "COLLECTION".into() },
        ],
    }
}

fn two_variant_union(representation: UnionRepresentation) -> Union {
    Union {
        name: "MyUnion".into(),
        representation,
        variants: vec![
            UnionVariant {
                name: Some("VarOne".into()),
                ty: named("VarOne"),
                serialized_name: "VAR_ONE".into(),
            },
            UnionVariant {
                name: Some("VarTwo".into()),
                ty: named("VarTwo"),
                serialized_name: "VAR_TWO".into(),
            },
        ],
    }
}

fn adjacent() -> UnionRepresentation {
    UnionRepresentation::AdjacentlyTagged { tag: "type".into(), content: "data".into() }
}

fn string_list() -> FieldType {
    FieldType::List(Box::new(FieldType::Primitive(Primitive::String)))
}

fn string_int_map() -> FieldType {
    FieldType::Dictionary {
        key: Box::new(FieldType::Primitive(Primitive::String)),
        value: Box::new(FieldType::Primitive(Primitive::Int)),
    }
}

fn optional_string() -> FieldType {
    FieldType::Optional(Box::new(FieldType::Primitive(Primitive::String)))
}

fn users_map() -> FieldType {
    FieldType::Dictionary { key: Box::new(named("UserId")), value: Box::new(named("UserData")) }
}

// Go

#[test]
fn output_test_primitive_structs() {
    assert_eq!(
        go_struct(&primitive_struct()),
        "type MyStruct struct {\n\tAString string `json:\"a_string\"`\n\tAnInt int `json:\"renamed_tho\"`\n\tABool bool `json:\"also_renamed\"`\n\tAFloat float64 `json:\"a_float\"`\n}\n"
    );
}

#[test]
fn output_test_newtype_output() {
    let newtype = NewType { name: "UserId".into(), inner: FieldType::Primitive(Primitive::String) };
    assert_eq!(go_newtype(&newtype), "type UserId string\n");
}

#[test]
fn output_test_enum_output() {
    assert_eq!(
        go_enum(&fulfilment_enum()),
        "type FulfilmentType string\n\nconst (\n\tDelivery FulfilmentType = \"DELIVERY\"\n\tCollection FulfilmentType = \"COLLECTION\"\n)\n"
    );
}

#[test]
fn output_test_adjacently_tagged_union_output() {
    let out = go_union(&two_variant_union(adjacent()));
    assert!(out.starts_with("type MyUnion struct {\n\tVarOne *VarOne\n\tVarTwo *VarTwo\n}\n\n"));
    assert!(out.contains("func (u MyUnion) Validate() error {\n"));
    assert!(out.contains(
        "\tif self.VarOne != nil {\n\t\treturn json.Marshal(map[string]interface{}{\"type\": \"VAR_ONE\", \"data\": self.VarOne})\n\t}\n"
    ));
    assert!(out.contains("\tswitch tagged.Tag {\n\tcase \"VAR_ONE\":\n\t\tvar value VarOne\n"));
    assert!(out.contains("\t\tContent json.RawMessage `json:\"data\"`\n"));
}

#[test]
fn output_test_list_types() {
    assert_eq!(string_list().go_type(), "[]string");
}

#[test]
fn output_test_map_types() {
    assert_eq!(string_int_map().go_type(), "map[string]int");
}

#[test]
fn output_test_option_types() {
    assert_eq!(optional_string().go_type(), "*string");
}

#[test]
fn test_validate_output() {
    assert_eq!(
        UnionValidate(&two_variant_union(adjacent())).render(),
        "func (u MyUnion) Validate() error {\n\tvar count int\n\n\tif u.VarOne != nil {\n\t\tcount++\n\t}\n\n\tif u.VarTwo != nil {\n\t\tcount++\n\t}\n\n\tif count != 1 {\n\t\treturn fmt.Errorf(\"one variant must be populated, found %d\", count)\n\t}\n\n\treturn nil\n}\n"
    );
}

// TypeScript

#[test]
fn mod_test_primitive_structs() {
    assert_eq!(
        TypeScriptType::Struct(&primitive_struct()).render().unwrap(),
        "type MyStruct = {\n    a_string: string;\n    renamed_tho: number;\n    also_renamed: boolean;\n    a_float: number;\n}\n"
    );
}

#[test]
fn mod_test_newtype_output() {
    let newtype = NewType { name: "UserId".into(), inner: FieldType::Primitive(Primitive::String) };
    assert_eq!(TypeScriptType::NewType(&newtype).render().unwrap(), "type UserId = string;\n");
}

#[test]
fn test_newtype_struct_output() {
    let newtype = NewType { name: "Users".into(), inner: users_map() };
    assert_eq!(
        TypeScriptType::NewType(&newtype).render().unwrap(),
        "type Users = Record<UserId, UserData>;\n"
    );
}

#[test]
fn test_alias_output() {
    let alias = Alias { name: "Users".into(), inner: users_map() };
    assert_eq!(
        TypeScriptType::Alias(&alias).render().unwrap(),
        "type Users = Record<UserId, UserData>;\n"
    );
}

#[test]
fn mod_test_enum_output() {
    assert_eq!(
        TypeScriptType::Enum(&fulfilment_enum()).render().unwrap(),
        "enum FulfilmentType {\n    Delivery = \"DELIVERY\",\n    Collection = \"COLLECTION\",\n}\n"
    );
}

#[test]
fn test_externally_tagged_union_output() {
    let union = two_variant_union(UnionRepresentation::ExternallyTagged);
    assert_eq!(
        TypeScriptType::Union(&union).render().unwrap(),
        "type MyUnion = { \"VAR_ONE\": VarOne } | { \"VAR_TWO\": VarTwo };\n"
    );
}

#[test]
fn test_interally_tagged_union_output() {
    let union = two_variant_union(UnionRepresentation::InternallyTagged { tag: "type".into() });
    assert_eq!(
        TypeScriptType::Union(&union).render().unwrap(),
        "type MyUnion = ({ \"type\": \"VAR_ONE\" } & VarOne) | ({ \"type\": \"VAR_TWO\" } & VarTwo);\n"
    );
}

#[test]
fn mod_test_adjacently_tagged_union_output() {
    assert_eq!(
        TypeScriptType::Union(&two_variant_union(adjacent())).render().unwrap(),
        "type MyUnion = { \"type\": \"VAR_ONE\", \"data\": VarOne } | { \"type\": \"VAR_TWO\", \"data\": VarTwo };\n"
    );
}

#[test]
fn test_untagged_union_output() {
    let union = Union {
        name: "MyUnion".into(),
        representation: UnionRepresentation::Untagged,
        variants: vec![
            UnionVariant { name: Some("VarA".into()), ty: named("VarOne"), serialized_name: "VAR_A".into() },
            UnionVariant { name: Some("VarB".into()), ty: named("VarTwo"), serialized_name: "VAR_A".into() },
        ],
    };
    assert_eq!(TypeScriptType::Union(&union).render().unwrap(), "type MyUnion = VarOne | VarTwo;\n");
}

#[test]
fn test_untagged_option_union_output() {
    let union = Union {
        name: "MyUnion".into(),
        representation: UnionRepresentation::Untagged,
        variants: vec![
            UnionVariant {
                name: Some("VarA".into()),
                ty: FieldType::Optional(Box::new(named("VarOne"))),
                serialized_name: "VAR_A".into(),
            },
            UnionVariant { name: Some("VarB".into()), ty: named("VarTwo"), serialized_name: "VAR_A".into() },
        ],
    };
    assert_eq!(
        TypeScriptType::Union(&union).render().unwrap(),
        "type MyUnion = VarOne | null | VarTwo;\n"
    );
}

#[test]
fn mod_test_list_types() {
    assert_eq!(string_list().typescript_type(), "string[]");
}

#[test]
fn mod_test_map_types() {
    assert_eq!(string_int_map().typescript_type(), "Record<string, number>");
}

#[test]
fn mod_test_option_types() {
    assert_eq!(optional_string().typescript_type(), "string | null");
}

// Kotlin

#[test]
fn tests_test_primitive_structs() {
    let mut s = primitive_struct();
    s.fields.push(field(
        "optionalFloat",
        "a_float",
        FieldType::Optional(Box::new(FieldType::Primitive(Primitive::Float))),
    ));
    assert_eq!(
        KotlinType::Struct(&s).render().unwrap(),
        "@Serializable\ndata class MyStruct(\n    @SerialName(\"a_string\")\n    public var aString: String,\n    @SerialName(\"renamed_tho\")\n    public var anInt: Long,\n    @SerialName(\"also_renamed\")\n    public var aBool: Boolean,\n    @SerialName(\"a_float\")\n    public var aFloat: Double,\n    @SerialName(\"a_float\")\n    public var optionalFloat: Double? = null,\n)\n\n\n"
    );
}

#[test]
fn tests_test_newtype_output() {
    let newtype = NewType { name: "UserId".into(), inner: FieldType::Primitive(Primitive::String) };
    assert_eq!(
        KotlinType::NewType(&newtype).render().unwrap(),
        "@Serializable(with = UserIdSerializer::class)\ndata class UserId(\n    @SerialName(\"value\")\n    public var value: String,\n)\n\n\nobject UserIdSerializer : KSerializer<UserId> {\n    private val serializer = String.serializer();\n\n    override val descriptor: SerialDescriptor = serializer.descriptor;\n\n    override fun serialize(encoder: Encoder, value: UserId) {\n        encoder.encodeSerializableValue(serializer, value.value)\n    }\n\n    override fun deserialize(decoder: Decoder): UserId {\n        return UserId(decoder.decodeSerializableValue(serializer))\n    }\n}\n\n"
    );
}

#[test]
fn tests_test_enum_output() {
    assert_eq!(
        KotlinType::Enum(&fulfilment_enum()).render().unwrap(),
        "@Serializable\npublic enum class FulfilmentType {\n    @SerialName(\"DELIVERY\") DELIVERY,\n    @SerialName(\"COLLECTION\") COLLECTION,\n}\n\n\n"
    );
}

#[test]
fn tests_test_adjacently_tagged_union_output() {
    // Kotlin output writes externally tagged unions only.
    assert!(KotlinType::Union(&two_variant_union(adjacent())).render().is_none());
}

#[test]
fn tests_test_list_types() {
    assert_eq!(string_list().kotlin_type(), "List<String>");
}

#[test]
fn tests_test_map_types() {
    assert_eq!(string_int_map().kotlin_type(), "Map<String, Long>");
}

#[test]
fn tests_test_option_types() {
    assert_eq!(optional_string().kotlin_type(), "String?");
}

// Swift

#[test]
fn swift_test_primitive_structs() {
    assert_eq!(
        SwiftType::Struct(&primitive_struct()).render().unwrap(),
        "public struct MyStruct: Hashable, Codable {\n    public var aString: String\n    public var anInt: Int64\n    public var aBool: Bool\n    public var aFloat: Double\n\n    public init(\n        aString: String,\n        anInt: Int64,\n        aBool: Bool,\n        aFloat: Double) {\n        self.aString = aString\n        self.anInt = anInt\n        self.aBool = aBool\n        self.aFloat = aFloat\n    }\n}\n\nextension MyStruct {\n    enum CodingKeys: String, CodingKey, Codable {\n        case aString = \"a_string\"\n        case anInt = \"renamed_tho\"\n        case aBool = \"also_renamed\"\n        case aFloat = \"a_float\"\n    }\n}\n\n"
    );
}

#[test]
fn swift_test_newtype_output() {
    let newtype = NewType { name: "UserId".into(), inner: FieldType::Primitive(Primitive::String) };
    assert_eq!(
        SwiftType::NewType(&newtype).render().unwrap(),
        "public struct UserId: Hashable {\n    public var value: String\n\n    public init(\n        value: String) {\n        self.value = value\n    }\n}\n\n\nextension UserId: Decodable {\n    public init(from decoder: Decoder) throws {\n        let container = try decoder.singleValueContainer()\n        self.value = try container.decode(String.self)\n\n    }\n}\n\nextension UserId: Encodable {\n    public func encode(to encoder: Encoder) throws {\n        var container = encoder.singleValueContainer()\n        try container.encode(self.value)\n\n    }\n}\n\n\n"
    );
}

#[test]
fn swift_test_enum_output() {
    assert_eq!(
        SwiftType::Enum(&fulfilment_enum()).render().unwrap(),
        "public enum FulfilmentType : String, Codable {\n    case delivery = \"DELIVERY\"\n    case collection = \"COLLECTION\"\n}\n\n\n"
    );
}

#[test]
fn swift_test_adjacently_tagged_union_output() {
    let out = SwiftType::Union(&two_variant_union(adjacent())).render().unwrap();
    assert!(out.starts_with(
        "public enum MyUnion {\n    case varOne(VarOne)\n    case varTwo(VarTwo)\n    enum CodingKeys: String, CodingKey, Codable {\n        case varOne = \"VAR_ONE\"\n        case varTwo = \"VAR_TWO\"\n    }\n}\n\n"
    ));
    assert!(out.contains("            case tag = \"type\"\n            case data = \"data\"\n"));
    assert!(out.contains("                try container.encode(MyUnion.CodingKeys.varOne, forKey: .tag)\n"));
    assert!(out.contains("                self = .varTwo(try container.decode(VarTwo.self, forKey: .data))\n"));
}

#[test]
fn swift_test_list_types() {
    assert_eq!(string_list().swift_type(), "[String]");
}

#[test]
fn swift_test_map_types() {
    assert_eq!(string_int_map().swift_type(), "[String: Int64]");
}

#[test]
fn swift_test_option_types() {
    assert_eq!(optional_string().swift_type(), "String?");
}
