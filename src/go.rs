//! The Go backend: type declarations plus `MarshalJSON`, `UnmarshalJSON` and
//! `Validate` methods for unions.

use vstd::prelude::*;
use vstd::string::*;

use crate::case::{pascal_case, to_pascal_case};
use crate::text::{concat_each, concat_each_with, concat_map, indented, indent_text, lemma_concat_map_step};
use crate::output::OutputFormat;
use crate::registry::Type;
use crate::types::{
    Alias, Enum, EnumVariant, Field, FieldType, NewType, Primitive, Struct, Union,
    UnionRepresentation, UnionVariant,
};

verus! {

/// The Go spelling of a field type.
pub open spec fn go_type_text(t: FieldType) -> Seq<char>
    decreases t,
{
    match t {
        FieldType::Named(r) => r.name@,
        FieldType::Optional(inner) => "*"@ + go_type_text(*inner),
        FieldType::List(inner) => "[]"@ + go_type_text(*inner),
        FieldType::Dictionary { key, value } => "map["@ + go_type_text(*key) + "]"@
            + go_type_text(*value),
        FieldType::Primitive(p) => go_primitive_text(p),
    }
}

/// The Go spelling of a primitive type.
pub open spec fn go_primitive_text(p: Primitive) -> Seq<char> {
    match p {
        Primitive::String => "string"@,
        Primitive::Float => "float64"@,
        Primitive::Int => "int"@,
        Primitive::Bool => "bool"@,
        Primitive::Time => "time.Time"@,
    }
}

fn go_primitive(p: Primitive) -> (r: String)
    ensures
        r@ == go_primitive_text(p),
{
    match p {
        Primitive::String => String::from_str("string"),
        Primitive::Float => String::from_str("float64"),
        Primitive::Int => String::from_str("int"),
        Primitive::Bool => String::from_str("bool"),
        Primitive::Time => String::from_str("time.Time"),
    }
}

impl FieldType {
    /// The Go spelling of this type.
    pub fn go_type(&self) -> (r: String)
        ensures
            r@ == go_type_text(*self),
        decreases self,
    {
        match self {
            FieldType::Named(type_ref) => type_ref.name().to_string(),
            FieldType::Optional(inner) => {
                let mut s = String::from_str("*");
                s.append(inner.go_type().as_str());
                s
            },
            FieldType::List(inner) => {
                let mut s = String::from_str("[]");
                s.append(inner.go_type().as_str());
                s
            },
            FieldType::Dictionary { key, value } => {
                let mut s = String::from_str("map[");
                s.append(key.go_type().as_str());
                s.append("]");
                s.append(value.go_type().as_str());
                s
            },
            FieldType::Primitive(p) => go_primitive(*p),
        }
    }
}

/// A struct field: its identifier in PascalCase, its type, and its wire name
/// as the JSON tag.
pub open spec fn go_field_text(f: Field) -> Seq<char> {
    pascal_case(f.name@) + " "@ + go_type_text(f.ty) + " `json:\""@ + f.serialized_name@
        + "\"`\n"@
}

/// A Go struct with one tagged field per field.
pub open spec fn go_struct_text(s: Struct) -> Seq<char> {
    "type "@ + s.name@ + " struct {\n"@ + indent_text(
        concat_map(s.fields@, |f: Field| go_field_text(f)),
        "\t"@,
        true,
    ) + "}\n"@
}

/// A Go defined type over the inner type.
pub open spec fn go_newtype_text(n: NewType) -> Seq<char> {
    "type "@ + n.name@ + " "@ + go_type_text(n.inner) + "\n"@
}

/// A Go defined type over the aliased type.
pub open spec fn go_alias_text(a: Alias) -> Seq<char> {
    "type "@ + a.name@ + " "@ + go_type_text(a.inner) + "\n"@
}

/// The string constant of an enum variant.
pub open spec fn go_enum_variant_text(enum_name: Seq<char>, v: EnumVariant) -> Seq<char> {
    v.name@ + " "@ + enum_name + " = \""@ + v.serialized_name@ + "\"\n"@
}

/// A Go string type with one constant per variant.
pub open spec fn go_enum_text(e: Enum) -> Seq<char> {
    "type "@ + e.name@ + " string\n\nconst (\n"@ + indent_text(
        concat_map(e.variants@, |v: EnumVariant| go_enum_variant_text(e.name@, v)),
        "\t"@,
        true,
    ) + ")\n"@
}

/// The Go field name of a union variant: its own name, or else its type's.
pub open spec fn go_variant_name(v: UnionVariant) -> Seq<char> {
    match v.name {
        Some(n) => n@,
        None => go_type_text(v.ty),
    }
}

fn go_field(f: &Field) -> (r: String)
    ensures
        r@ == go_field_text(*f),
{
    let mut s = to_pascal_case(f.name.as_str());
    s.append(" ");
    s.append(f.ty.go_type().as_str());
    s.append(" `json:\"");
    s.append(f.serialized_name.as_str());
    s.append("\"`\n");
    s
}

/// Renders a struct as a Go struct with JSON tags.
pub fn go_struct(details: &Struct) -> (r: String)
    ensures
        r@ == go_struct_text(*details),
{
    let ghost f = |f: Field| go_field_text(f);
    let mut body = String::new();
    let mut i: usize = 0;
    while i < details.fields.len()
        invariant
            i <= details.fields.len(),
            f == (|f: Field| go_field_text(f)),
            body@ == concat_map(details.fields@.subrange(0, i as int), f),
        decreases details.fields.len() - i,
    {
        proof {
            lemma_concat_map_step(details.fields@, i as int, f);
        }
        body.append(go_field(&details.fields[i]).as_str());
        i = i + 1;
    }
    assert(details.fields@.subrange(0, details.fields.len() as int) =~= details.fields@);
    let mut s = String::from_str("type ");
    s.append(details.name.as_str());
    s.append(" struct {\n");
    s.append(indented(body.as_str(), "\t").as_str());
    s.append("}\n");
    s
}

/// Renders a newtype as a Go defined type over its inner type.
pub fn go_newtype(details: &NewType) -> (r: String)
    ensures
        r@ == go_newtype_text(*details),
{
    let mut s = String::from_str("type ");
    s.append(details.name.as_str());
    s.append(" ");
    s.append(details.inner.go_type().as_str());
    s.append("\n");
    s
}

/// Renders an alias as a Go defined type over the aliased type.
pub fn go_alias(details: &Alias) -> (r: String)
    ensures
        r@ == go_alias_text(*details),
{
    let mut s = String::from_str("type ");
    s.append(details.name.as_str());
    s.append(" ");
    s.append(details.inner.go_type().as_str());
    s.append("\n");
    s
}

/// Renders an enum as a string type with one constant per variant.
pub fn go_enum(details: &Enum) -> (r: String)
    ensures
        r@ == go_enum_text(*details),
{
    let ghost f = |v: EnumVariant| go_enum_variant_text(details.name@, v);
    let mut body = String::new();
    let mut i: usize = 0;
    while i < details.variants.len()
        invariant
            i <= details.variants.len(),
            f == (|v: EnumVariant| go_enum_variant_text(details.name@, v)),
            body@ == concat_map(details.variants@.subrange(0, i as int), f),
        decreases details.variants.len() - i,
    {
        proof {
            lemma_concat_map_step(details.variants@, i as int, f);
        }
        let v = &details.variants[i];
        body.append(v.name.as_str());
        body.append(" ");
        body.append(details.name.as_str());
        body.append(" = \"");
        body.append(v.serialized_name.as_str());
        body.append("\"\n");
        i = i + 1;
    }
    assert(details.variants@.subrange(0, details.variants.len() as int) =~= details.variants@);
    let mut s = String::from_str("type ");
    s.append(details.name.as_str());
    s.append(" string\n\nconst (\n");
    s.append(indented(body.as_str(), "\t").as_str());
    s.append(")\n");
    s
}

} // verus!

verus! {

/// The pointer field that holds a union variant.
pub open spec fn go_union_field_text(v: UnionVariant) -> Seq<char> {
    go_variant_name(v) + " *"@ + go_type_text(v.ty) + "\n"@
}

/// The count of one populated variant in `Validate`.
pub open spec fn go_validate_case_text(v: UnionVariant) -> Seq<char> {
    "\tif u."@ + go_variant_name(v) + " != nil {\n\t\tcount++\n\t}\n\n"@
}

/// The `Validate` method: exactly one variant must be populated.
pub open spec fn go_validate_text(u: Union) -> Seq<char> {
    "func (u "@ + u.name@ + ") Validate() error {\n\tvar count int\n\n"@ + concat_map(
        u.variants@,
        |v: UnionVariant| go_validate_case_text(v),
    )
        + "\tif count != 1 {\n\t\treturn fmt.Errorf(\"one variant must be populated, found %d\", count)\n\t}\n\n\treturn nil\n}\n"@
}

/// How `MarshalJSON` writes one populated variant.
pub open spec fn go_marshal_case_text(repr: UnionRepresentation, v: UnionVariant) -> Seq<char> {
    let vn = go_variant_name(v);
    "\tif self."@ + vn + " != nil {\n"@ + match repr {
        UnionRepresentation::AdjacentlyTagged { tag, content } => "\t\treturn json.Marshal(map[string]interface{}{\""@
            + tag@ + "\": \""@ + v.serialized_name@ + "\", \""@ + content@ + "\": self."@ + vn
            + "})\n"@,
        UnionRepresentation::InternallyTagged { tag } => "\t\tpayload, err := json.Marshal(self."@
            + vn
            + ")\n\t\tif err != nil {\n\t\t\treturn nil, err\n\t\t}\n\t\tvar output map[string]interface{}\n\t\tif err := json.Unmarshal(payload, &output); err != nil {\n\t\t\treturn nil, err\n\t\t}\n\t\toutput[\""@
            + tag@ + "\"] = \""@ + v.serialized_name@ + "\"\n\t\treturn json.Marshal(output)\n"@,
        UnionRepresentation::ExternallyTagged => "\t\treturn json.Marshal(map[string]interface{}{\""@
            + v.serialized_name@ + "\": self."@ + vn + "})\n"@,
        UnionRepresentation::Untagged => "\t\treturn json.Marshal(self."@ + vn + ")\n"@,
    } + "\t}\n"@
}

/// The `MarshalJSON` method: validate, then write the populated variant in
/// the union's representation.
pub open spec fn go_marshal_text(u: Union) -> Seq<char> {
    "func (self "@ + u.name@
        + ") MarshalJSON() ([]byte, error) {\n\tif err := self.Validate(); err != nil {\n\t\treturn nil, err\n\t}\n"@
        + concat_map(u.variants@, |v: UnionVariant| go_marshal_case_text(u.representation, v))
        + "\treturn nil, fmt.Errorf(\"no variant of "@ + u.name@ + " is populated\")\n}\n\n"@
}

/// Decoding into the variant's type and storing it.
pub open spec fn go_decode_into_text(indentation: Seq<char>, source: Seq<char>, v: UnionVariant) -> Seq<char> {
    indentation + "var value "@ + go_type_text(v.ty) + "\n"@ + indentation
        + "if err := json.Unmarshal("@ + source + ", &value); err != nil {\n"@ + indentation
        + "\treturn err\n"@ + indentation + "}\n"@ + indentation + "self."@ + go_variant_name(v)
        + " = &value\n"@ + indentation + "return nil\n"@
}

/// How `UnmarshalJSON` reads one variant.
pub open spec fn go_unmarshal_case_text(repr: UnionRepresentation, v: UnionVariant) -> Seq<char> {
    match repr {
        UnionRepresentation::AdjacentlyTagged { .. } => "\tcase \""@ + v.serialized_name@ + "\":\n"@
            + go_decode_into_text("\t\t"@, "tagged.Content"@, v),
        UnionRepresentation::InternallyTagged { .. } => "\tcase \""@ + v.serialized_name@ + "\":\n"@
            + go_decode_into_text("\t\t"@, "data"@, v),
        UnionRepresentation::ExternallyTagged => "\t\tcase \""@ + v.serialized_name@ + "\":\n"@
            + go_decode_into_text("\t\t\t"@, "content"@, v),
        UnionRepresentation::Untagged => "\t{\n\t\tvar value "@ + go_type_text(v.ty)
            + "\n\t\tif err := json.Unmarshal(data, &value); err == nil {\n\t\t\tself."@
            + go_variant_name(v) + " = &value\n\t\t\treturn nil\n\t\t}\n\t}\n"@,
    }
}

/// How `UnmarshalJSON` reads the tag before choosing a variant.
pub open spec fn go_unmarshal_head_text(name: Seq<char>, repr: UnionRepresentation) -> Seq<char> {
    match repr {
        UnionRepresentation::AdjacentlyTagged { tag, content } => "\tvar tagged struct {\n\t\tTag string `json:\""@
            + tag@ + "\"`\n\t\tContent json.RawMessage `json:\""@ + content@
            + "\"`\n\t}\n\tif err := json.Unmarshal(data, &tagged); err != nil {\n\t\treturn err\n\t}\n\tswitch tagged.Tag {\n"@,
        UnionRepresentation::InternallyTagged { tag } => "\tvar tagged struct {\n\t\tTag string `json:\""@
            + tag@
            + "\"`\n\t}\n\tif err := json.Unmarshal(data, &tagged); err != nil {\n\t\treturn err\n\t}\n\tswitch tagged.Tag {\n"@,
        UnionRepresentation::ExternallyTagged => "\tvar tagged map[string]json.RawMessage\n\tif err := json.Unmarshal(data, &tagged); err != nil {\n\t\treturn err\n\t}\n\tif len(tagged) != 1 {\n\t\treturn fmt.Errorf(\"expected exactly one key for "@
            + name + ", found %d\", len(tagged))\n\t}\n\tfor key, content := range tagged {\n\t\tswitch key {\n"@,
        UnionRepresentation::Untagged => Seq::empty(),
    }
}

/// How `UnmarshalJSON` fails when no variant was chosen.
pub open spec fn go_unmarshal_tail_text(name: Seq<char>, repr: UnionRepresentation) -> Seq<char> {
    match repr {
        UnionRepresentation::ExternallyTagged => "\t\tdefault:\n\t\t\treturn fmt.Errorf(\"unknown variant of "@
            + name + ": %s\", key)\n\t\t}\n\t}\n\treturn nil\n}\n\n"@,
        UnionRepresentation::Untagged => "\treturn fmt.Errorf(\"no variant of "@ + name
            + " matched the input\")\n}\n\n"@,
        _ => "\tdefault:\n\t\treturn fmt.Errorf(\"unknown variant of "@ + name
            + ": %s\", tagged.Tag)\n\t}\n}\n\n"@,
    }
}

/// The `UnmarshalJSON` method: find the variant the input names (or, when
/// untagged, the first that decodes) and decode its payload.
pub open spec fn go_unmarshal_text(u: Union) -> Seq<char> {
    "func (self *"@ + u.name@ + ") UnmarshalJSON(data []byte) error {\n"@
        + go_unmarshal_head_text(u.name@, u.representation) + concat_map(
        u.variants@,
        |v: UnionVariant| go_unmarshal_case_text(u.representation, v),
    ) + go_unmarshal_tail_text(u.name@, u.representation)
}

/// A Go union: a struct with one pointer per variant, and its `Validate`,
/// `MarshalJSON` and `UnmarshalJSON` methods.
pub open spec fn go_union_text(u: Union) -> Seq<char> {
    "type "@ + u.name@ + " struct {\n"@ + indent_text(
        concat_map(u.variants@, |v: UnionVariant| go_union_field_text(v)),
        "\t"@,
        true,
    ) + "}\n\n"@ + go_validate_text(u) + go_marshal_text(u) + go_unmarshal_text(u)
}

impl UnionVariant {
    /// The Go field name of this variant: its own name, or else its type's.
    pub fn go_name(&self) -> (r: String)
        ensures
            r@ == go_variant_name(*self),
    {
        match &self.name {
            Some(n) => n.clone(),
            None => self.ty.go_type(),
        }
    }
}

fn go_union_field(v: &UnionVariant) -> (r: String)
    ensures
        r@ == go_union_field_text(*v),
{
    let mut s = v.go_name();
    s.append(" *");
    s.append(v.ty.go_type().as_str());
    s.append("\n");
    s
}

fn go_validate_case(v: &UnionVariant) -> (r: String)
    ensures
        r@ == go_validate_case_text(*v),
{
    let mut s = String::from_str("\tif u.");
    s.append(v.go_name().as_str());
    s.append(" != nil {\n\t\tcount++\n\t}\n\n");
    s
}

/// Renders the `Validate` method of a union, which rejects a value with no
/// populated variant or with more than one.
pub fn go_validate(details: &Union) -> (r: String)
    ensures
        r@ == go_validate_text(*details),
{
    let mut s = String::from_str("func (u ");
    s.append(details.name.as_str());
    s.append(") Validate() error {\n\tvar count int\n\n");
    let cases = concat_each(
        &details.variants,
        go_validate_case,
        Ghost(|v: UnionVariant| go_validate_case_text(v)),
    );
    s.append(cases.as_str());
    s.append(
        "\tif count != 1 {\n\t\treturn fmt.Errorf(\"one variant must be populated, found %d\", count)\n\t}\n\n\treturn nil\n}\n",
    );
    s
}

fn go_marshal_case(repr: &UnionRepresentation, v: &UnionVariant) -> (r: String)
    ensures
        r@ == go_marshal_case_text(*repr, *v),
{
    let vn = v.go_name();
    let mut s = String::from_str("\tif self.");
    s.append(vn.as_str());
    s.append(" != nil {\n");
    match repr {
        UnionRepresentation::AdjacentlyTagged { tag, content } => {
            s.append("\t\treturn json.Marshal(map[string]interface{}{\"");
            s.append(tag.as_str());
            s.append("\": \"");
            s.append(v.serialized_name.as_str());
            s.append("\", \"");
            s.append(content.as_str());
            s.append("\": self.");
            s.append(vn.as_str());
            s.append("})\n");
        },
        UnionRepresentation::InternallyTagged { tag } => {
            s.append("\t\tpayload, err := json.Marshal(self.");
            s.append(vn.as_str());
            s.append(
                ")\n\t\tif err != nil {\n\t\t\treturn nil, err\n\t\t}\n\t\tvar output map[string]interface{}\n\t\tif err := json.Unmarshal(payload, &output); err != nil {\n\t\t\treturn nil, err\n\t\t}\n\t\toutput[\"",
            );
            s.append(tag.as_str());
            s.append("\"] = \"");
            s.append(v.serialized_name.as_str());
            s.append("\"\n\t\treturn json.Marshal(output)\n");
        },
        UnionRepresentation::ExternallyTagged => {
            s.append("\t\treturn json.Marshal(map[string]interface{}{\"");
            s.append(v.serialized_name.as_str());
            s.append("\": self.");
            s.append(vn.as_str());
            s.append("})\n");
        },
        UnionRepresentation::Untagged => {
            s.append("\t\treturn json.Marshal(self.");
            s.append(vn.as_str());
            s.append(")\n");
        },
    }
    s.append("\t}\n");
    s
}

/// Renders the `MarshalJSON` method of a union.
pub fn go_marshal(details: &Union) -> (r: String)
    ensures
        r@ == go_marshal_text(*details),
{
    let repr = &details.representation;
    let mut s = String::from_str("func (self ");
    s.append(details.name.as_str());
    s.append(
        ") MarshalJSON() ([]byte, error) {\n\tif err := self.Validate(); err != nil {\n\t\treturn nil, err\n\t}\n",
    );
    let cases = concat_each_with(
        repr,
        &details.variants,
        go_marshal_case,
        Ghost(|r: UnionRepresentation, v: UnionVariant| go_marshal_case_text(r, v)),
    );
    assert((|a: UnionVariant|
        (|r: UnionRepresentation, v: UnionVariant| go_marshal_case_text(r, v))(*repr, a))
        =~= (|v: UnionVariant| go_marshal_case_text(details.representation, v)));
    s.append(cases.as_str());
    s.append("\treturn nil, fmt.Errorf(\"no variant of ");
    s.append(details.name.as_str());
    s.append(" is populated\")\n}\n\n");
    s
}

fn go_decode_into(indentation: &str, source: &str, v: &UnionVariant) -> (r: String)
    ensures
        r@ == go_decode_into_text(indentation@, source@, *v),
{
    let mut s = String::from_str(indentation);
    s.append("var value ");
    s.append(v.ty.go_type().as_str());
    s.append("\n");
    s.append(indentation);
    s.append("if err := json.Unmarshal(");
    s.append(source);
    s.append(", &value); err != nil {\n");
    s.append(indentation);
    s.append("\treturn err\n");
    s.append(indentation);
    s.append("}\n");
    s.append(indentation);
    s.append("self.");
    s.append(v.go_name().as_str());
    s.append(" = &value\n");
    s.append(indentation);
    s.append("return nil\n");
    s
}

fn go_unmarshal_case(repr: &UnionRepresentation, v: &UnionVariant) -> (r: String)
    ensures
        r@ == go_unmarshal_case_text(*repr, *v),
{
    match repr {
        UnionRepresentation::AdjacentlyTagged { .. } => {
            let mut s = String::from_str("\tcase \"");
            s.append(v.serialized_name.as_str());
            s.append("\":\n");
            s.append(go_decode_into("\t\t", "tagged.Content", v).as_str());
            s
        },
        UnionRepresentation::InternallyTagged { .. } => {
            let mut s = String::from_str("\tcase \"");
            s.append(v.serialized_name.as_str());
            s.append("\":\n");
            s.append(go_decode_into("\t\t", "data", v).as_str());
            s
        },
        UnionRepresentation::ExternallyTagged => {
            let mut s = String::from_str("\t\tcase \"");
            s.append(v.serialized_name.as_str());
            s.append("\":\n");
            s.append(go_decode_into("\t\t\t", "content", v).as_str());
            s
        },
        UnionRepresentation::Untagged => {
            let mut s = String::from_str("\t{\n\t\tvar value ");
            s.append(v.ty.go_type().as_str());
            s.append("\n\t\tif err := json.Unmarshal(data, &value); err == nil {\n\t\t\tself.");
            s.append(v.go_name().as_str());
            s.append(" = &value\n\t\t\treturn nil\n\t\t}\n\t}\n");
            s
        },
    }
}

fn go_unmarshal_head(name: &str, repr: &UnionRepresentation) -> (r: String)
    ensures
        r@ == go_unmarshal_head_text(name@, *repr),
{
    match repr {
        UnionRepresentation::AdjacentlyTagged { tag, content } => {
            let mut s = String::from_str("\tvar tagged struct {\n\t\tTag string `json:\"");
            s.append(tag.as_str());
            s.append("\"`\n\t\tContent json.RawMessage `json:\"");
            s.append(content.as_str());
            s.append(
                "\"`\n\t}\n\tif err := json.Unmarshal(data, &tagged); err != nil {\n\t\treturn err\n\t}\n\tswitch tagged.Tag {\n",
            );
            s
        },
        UnionRepresentation::InternallyTagged { tag } => {
            let mut s = String::from_str("\tvar tagged struct {\n\t\tTag string `json:\"");
            s.append(tag.as_str());
            s.append(
                "\"`\n\t}\n\tif err := json.Unmarshal(data, &tagged); err != nil {\n\t\treturn err\n\t}\n\tswitch tagged.Tag {\n",
            );
            s
        },
        UnionRepresentation::ExternallyTagged => {
            let mut s = String::from_str(
                "\tvar tagged map[string]json.RawMessage\n\tif err := json.Unmarshal(data, &tagged); err != nil {\n\t\treturn err\n\t}\n\tif len(tagged) != 1 {\n\t\treturn fmt.Errorf(\"expected exactly one key for ",
            );
            s.append(name);
            s.append(
                ", found %d\", len(tagged))\n\t}\n\tfor key, content := range tagged {\n\t\tswitch key {\n",
            );
            s
        },
        UnionRepresentation::Untagged => {
            let s = String::new();
            assert(s@ =~= Seq::<char>::empty());
            s
        },
    }
}

fn go_unmarshal_tail(name: &str, repr: &UnionRepresentation) -> (r: String)
    ensures
        r@ == go_unmarshal_tail_text(name@, *repr),
{
    match repr {
        UnionRepresentation::ExternallyTagged => {
            let mut s = String::from_str("\t\tdefault:\n\t\t\treturn fmt.Errorf(\"unknown variant of ");
            s.append(name);
            s.append(": %s\", key)\n\t\t}\n\t}\n\treturn nil\n}\n\n");
            s
        },
        UnionRepresentation::Untagged => {
            let mut s = String::from_str("\treturn fmt.Errorf(\"no variant of ");
            s.append(name);
            s.append(" matched the input\")\n}\n\n");
            s
        },
        _ => {
            let mut s = String::from_str("\tdefault:\n\t\treturn fmt.Errorf(\"unknown variant of ");
            s.append(name);
            s.append(": %s\", tagged.Tag)\n\t}\n}\n\n");
            s
        },
    }
}

/// Renders the `UnmarshalJSON` method of a union.
pub fn go_unmarshal(details: &Union) -> (r: String)
    ensures
        r@ == go_unmarshal_text(*details),
{
    let repr = &details.representation;
    let mut s = String::from_str("func (self *");
    s.append(details.name.as_str());
    s.append(") UnmarshalJSON(data []byte) error {\n");
    s.append(go_unmarshal_head(details.name.as_str(), repr).as_str());
    let cases = concat_each_with(
        repr,
        &details.variants,
        go_unmarshal_case,
        Ghost(|r: UnionRepresentation, v: UnionVariant| go_unmarshal_case_text(r, v)),
    );
    assert((|a: UnionVariant|
        (|r: UnionRepresentation, v: UnionVariant| go_unmarshal_case_text(r, v))(*repr, a))
        =~= (|v: UnionVariant| go_unmarshal_case_text(details.representation, v)));
    s.append(cases.as_str());
    s.append(go_unmarshal_tail(details.name.as_str(), repr).as_str());
    s
}

/// Renders a union as a Go struct with one pointer per variant, plus its
/// `Validate`, `MarshalJSON` and `UnmarshalJSON` methods.
pub fn go_union(details: &Union) -> (r: String)
    ensures
        r@ == go_union_text(*details),
{
    let fields = concat_each(
        &details.variants,
        go_union_field,
        Ghost(|v: UnionVariant| go_union_field_text(v)),
    );
    let mut s = String::from_str("type ");
    s.append(details.name.as_str());
    s.append(" struct {\n");
    s.append(indented(fields.as_str(), "\t").as_str());
    s.append("}\n\n");
    s.append(go_validate(details).as_str());
    s.append(go_marshal(details).as_str());
    s.append(go_unmarshal(details).as_str());
    s
}

} // verus!

verus! {

/// The Go text for a registered type.
pub open spec fn go_text_of(ty: Type) -> Seq<char> {
    match ty {
        Type::Struct(s) => go_struct_text(s),
        Type::Enum(e) => go_enum_text(e),
        Type::Union(u) => go_union_text(u),
        Type::NewType(n) => go_newtype_text(n),
        Type::Alias(a) => go_alias_text(a),
    }
}

/// A registered type to be written out as Go.
pub enum GoType<'a> {
    /// A struct.
    Struct(&'a Struct),
    /// A newtype.
    NewType(&'a NewType),
    /// A type alias.
    Alias(&'a Alias),
    /// A data-less enum.
    Enum(&'a Enum),
    /// A union.
    Union(&'a Union),
}

impl<'a> GoType<'a> {
    /// The type this stands for.
    pub open spec fn ty(&self) -> Type {
        match *self {
            GoType::Struct(s) => Type::Struct(*s),
            GoType::NewType(n) => Type::NewType(*n),
            GoType::Alias(a) => Type::Alias(*a),
            GoType::Enum(e) => Type::Enum(*e),
            GoType::Union(u) => Type::Union(*u),
        }
    }

    /// Views a registered type as Go output.
    pub fn from_type(ty: &'a Type) -> (r: GoType<'a>)
        ensures
            r.ty() == *ty,
    {
        match ty {
            Type::Struct(inner) => GoType::Struct(inner),
            Type::Enum(inner) => GoType::Enum(inner),
            Type::Union(inner) => GoType::Union(inner),
            Type::NewType(inner) => GoType::NewType(inner),
            Type::Alias(inner) => GoType::Alias(inner),
        }
    }

    /// The Go source for this type.
    pub fn render(&self) -> (r: String)
        ensures
            r@ == go_text_of(self.ty()),
    {
        match self {
            GoType::Struct(details) => go_struct(details),
            GoType::NewType(details) => go_newtype(details),
            GoType::Alias(details) => go_alias(details),
            GoType::Enum(details) => go_enum(details),
            GoType::Union(details) => go_union(details),
        }
    }
}

impl<'a> OutputFormat for GoType<'a> {
    open spec fn supports(ty: Type) -> bool {
        true
    }

    open spec fn text_of(ty: Type) -> Seq<char> {
        go_text_of(ty)
    }

    fn supports_type(ty: &Type) -> (r: bool) {
        true
    }

    fn render_type(ty: &Type) -> (r: String) {
        GoType::from_type(ty).render()
    }
}

} // verus!

verus! {

/// A struct field written as a Go struct field.
pub struct GoField<'a>(pub &'a Field);

impl<'a> GoField<'a> {
    /// The Go field declaration, with its JSON tag.
    pub fn render(&self) -> (r: String)
        ensures
            r@ == go_field_text(*self.0),
    {
        go_field(self.0)
    }
}

/// The `Validate` method of a union.
pub struct UnionValidate<'a>(pub &'a Union);

impl<'a> UnionValidate<'a> {
    /// The Go source of the method.
    pub fn render(&self) -> (r: String)
        ensures
            r@ == go_validate_text(*self.0),
    {
        go_validate(self.0)
    }
}

} // verus!
