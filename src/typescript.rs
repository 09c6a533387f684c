//! The TypeScript backend: type declarations only, since TypeScript reads
//! JSON as it is.

use vstd::prelude::*;
use vstd::string::*;

use crate::output::OutputFormat;
use crate::registry::Type;
use crate::text::{concat_each, concat_map, indented, indent_text, join, join_strings};
use crate::types::{
    Alias, Enum, EnumVariant, Field, FieldType, NewType, Primitive, Struct, Union,
    UnionRepresentation, UnionVariant,
};

verus! {

/// The TypeScript spelling of a field type.
pub open spec fn ts_type_text(t: FieldType) -> Seq<char>
    decreases t,
{
    match t {
        FieldType::Named(r) => r.name@,
        FieldType::Optional(inner) => ts_type_text(*inner) + " | null"@,
        FieldType::List(inner) => ts_type_text(*inner) + "[]"@,
        FieldType::Dictionary { key, value } => "Record<"@ + ts_type_text(*key) + ", "@
            + ts_type_text(*value) + ">"@,
        FieldType::Primitive(p) => ts_primitive_text(p),
    }
}

/// The TypeScript spelling of a primitive type.
pub open spec fn ts_primitive_text(p: Primitive) -> Seq<char> {
    match p {
        Primitive::String => "string"@,
        Primitive::Float => "number"@,
        Primitive::Int => "number"@,
        Primitive::Bool => "boolean"@,
        Primitive::Time => "string"@,
    }
}

fn ts_primitive(p: Primitive) -> (r: String)
    ensures
        r@ == ts_primitive_text(p),
{
    match p {
        Primitive::String => String::from_str("string"),
        Primitive::Float => String::from_str("number"),
        Primitive::Int => String::from_str("number"),
        Primitive::Bool => String::from_str("boolean"),
        Primitive::Time => String::from_str("string"),
    }
}

impl FieldType {
    /// The TypeScript spelling of this type.
    pub fn typescript_type(&self) -> (r: String)
        ensures
            r@ == ts_type_text(*self),
        decreases self,
    {
        match self {
            FieldType::Named(type_ref) => type_ref.name().to_string(),
            FieldType::Optional(inner) => {
                let mut s = inner.typescript_type();
                s.append(" | null");
                s
            },
            FieldType::List(inner) => {
                let mut s = inner.typescript_type();
                s.append("[]");
                s
            },
            FieldType::Dictionary { key, value } => {
                let mut s = String::from_str("Record<");
                s.append(key.typescript_type().as_str());
                s.append(", ");
                s.append(value.typescript_type().as_str());
                s.append(">");
                s
            },
            FieldType::Primitive(p) => ts_primitive(*p),
        }
    }
}

/// Whether a union variant has a TypeScript name: its type is named or
/// optional, or the variant itself is named.
pub open spec fn ts_variant_named(v: UnionVariant) -> bool {
    v.ty is Named || v.ty is Optional || v.name is Some
}

/// The TypeScript type standing for a union variant's payload.
pub open spec fn ts_variant_text(v: UnionVariant) -> Seq<char> {
    if v.ty is Named || v.ty is Optional {
        ts_type_text(v.ty)
    } else {
        match v.name {
            Some(n) => n@,
            None => Seq::empty(),
        }
    }
}

impl UnionVariant {
    /// The TypeScript type standing for this variant's payload.
    pub fn typescript_name(&self) -> (r: String)
        requires
            ts_variant_named(*self),
        ensures
            r@ == ts_variant_text(*self),
    {
        match (&self.name, &self.ty) {
            (_, FieldType::Named(_)) => self.ty.typescript_type(),
            (_, FieldType::Optional(_)) => self.ty.typescript_type(),
            (Some(name), _) => name.clone(),
            (None, _) => {
                assert(false);
                String::new()
            },
        }
    }
}

/// A struct field, keyed by its wire name.
pub open spec fn ts_field_text(f: Field) -> Seq<char> {
    f.serialized_name@ + ": "@ + ts_type_text(f.ty) + ";\n"@
}

/// An object type with one property per field.
pub open spec fn ts_struct_text(s: Struct) -> Seq<char> {
    "type "@ + s.name@ + " = {\n"@ + indent_text(
        concat_map(s.fields@, |f: Field| ts_field_text(f)),
        "    "@,
        true,
    ) + "}\n"@
}

/// A synonym of the inner type.
pub open spec fn ts_newtype_text(n: NewType) -> Seq<char> {
    "type "@ + n.name@ + " = "@ + ts_type_text(n.inner) + ";\n"@
}

/// A synonym of the aliased type.
pub open spec fn ts_alias_text(a: Alias) -> Seq<char> {
    "type "@ + a.name@ + " = "@ + ts_type_text(a.inner) + ";\n"@
}

/// A string member of an enum.
pub open spec fn ts_enum_variant_text(v: EnumVariant) -> Seq<char> {
    v.name@ + " = \""@ + v.serialized_name@ + "\",\n"@
}

/// A TypeScript string enum.
pub open spec fn ts_enum_text(e: Enum) -> Seq<char> {
    "enum "@ + e.name@ + " {\n"@ + indent_text(
        concat_map(e.variants@, |v: EnumVariant| ts_enum_variant_text(v)),
        "    "@,
        true,
    ) + "}\n"@
}

/// One alternative of a union type, shaped by the union's representation.
pub open spec fn ts_union_part_text(repr: UnionRepresentation, v: UnionVariant) -> Seq<char> {
    match repr {
        UnionRepresentation::ExternallyTagged => "{ \""@ + v.serialized_name@ + "\": "@
            + ts_variant_text(v) + " }"@,
        UnionRepresentation::InternallyTagged { tag } => "({ \""@ + tag@ + "\": \""@
            + v.serialized_name@ + "\" } & "@ + ts_variant_text(v) + ")"@,
        UnionRepresentation::Untagged => ts_variant_text(v),
        UnionRepresentation::AdjacentlyTagged { tag, content } => "{ \""@ + tag@ + "\": \""@
            + v.serialized_name@ + "\", \""@ + content@ + "\": "@ + ts_variant_text(v) + " }"@,
    }
}

/// A union type of the variants' shapes.
pub open spec fn ts_union_text(u: Union) -> Seq<char> {
    "type "@ + u.name@ + " = "@ + join(
        u.variants@.map_values(|v: UnionVariant| ts_union_part_text(u.representation, v)),
        " | "@,
    ) + ";\n"@
}

fn ts_field(f: &Field) -> (r: String)
    ensures
        r@ == ts_field_text(*f),
{
    let mut s = f.serialized_name.clone();
    s.append(": ");
    s.append(f.ty.typescript_type().as_str());
    s.append(";\n");
    s
}

fn ts_enum_variant(v: &EnumVariant) -> (r: String)
    ensures
        r@ == ts_enum_variant_text(*v),
{
    let mut s = v.name.clone();
    s.append(" = \"");
    s.append(v.serialized_name.as_str());
    s.append("\",\n");
    s
}

fn ts_union_part(repr: &UnionRepresentation, v: &UnionVariant) -> (r: String)
    requires
        ts_variant_named(*v),
    ensures
        r@ == ts_union_part_text(*repr, *v),
{
    match repr {
        UnionRepresentation::ExternallyTagged => {
            let mut s = String::from_str("{ \"");
            s.append(v.serialized_name.as_str());
            s.append("\": ");
            s.append(v.typescript_name().as_str());
            s.append(" }");
            s
        },
        UnionRepresentation::InternallyTagged { tag } => {
            let mut s = String::from_str("({ \"");
            s.append(tag.as_str());
            s.append("\": \"");
            s.append(v.serialized_name.as_str());
            s.append("\" } & ");
            s.append(v.typescript_name().as_str());
            s.append(")");
            s
        },
        UnionRepresentation::Untagged => v.typescript_name(),
        UnionRepresentation::AdjacentlyTagged { tag, content } => {
            let mut s = String::from_str("{ \"");
            s.append(tag.as_str());
            s.append("\": \"");
            s.append(v.serialized_name.as_str());
            s.append("\", \"");
            s.append(content.as_str());
            s.append("\": ");
            s.append(v.typescript_name().as_str());
            s.append(" }");
            s
        },
    }
}

/// Renders a struct as an object type keyed by wire names.
pub fn ts_struct(details: &Struct) -> (r: String)
    ensures
        r@ == ts_struct_text(*details),
{
    let body = concat_each(&details.fields, ts_field, Ghost(|f: Field| ts_field_text(f)));
    let mut s = String::from_str("type ");
    s.append(details.name.as_str());
    s.append(" = {\n");
    s.append(indented(body.as_str(), "    ").as_str());
    s.append("}\n");
    s
}

/// Renders a newtype as a synonym of its inner type.
pub fn ts_newtype(details: &NewType) -> (r: String)
    ensures
        r@ == ts_newtype_text(*details),
{
    let mut s = String::from_str("type ");
    s.append(details.name.as_str());
    s.append(" = ");
    s.append(details.inner.typescript_type().as_str());
    s.append(";\n");
    s
}

/// Renders an alias as a synonym of the aliased type.
pub fn ts_alias(details: &Alias) -> (r: String)
    ensures
        r@ == ts_alias_text(*details),
{
    let mut s = String::from_str("type ");
    s.append(details.name.as_str());
    s.append(" = ");
    s.append(details.inner.typescript_type().as_str());
    s.append(";\n");
    s
}

/// Renders an enum with one string member per variant.
pub fn ts_enum(details: &Enum) -> (r: String)
    ensures
        r@ == ts_enum_text(*details),
{
    let body = concat_each(
        &details.variants,
        ts_enum_variant,
        Ghost(|v: EnumVariant| ts_enum_variant_text(v)),
    );
    let mut s = String::from_str("enum ");
    s.append(details.name.as_str());
    s.append(" {\n");
    s.append(indented(body.as_str(), "    ").as_str());
    s.append("}\n");
    s
}

/// Renders a union as a union of object shapes, one per variant.
pub fn ts_union(details: &Union) -> (r: String)
    requires
        forall|i: int| 0 <= i < details.variants.len() ==> ts_variant_named(#[trigger] details.variants@[i]),
    ensures
        r@ == ts_union_text(*details),
{
    let ghost f = |v: UnionVariant| ts_union_part_text(details.representation, v);
    let mut parts: Vec<String> = Vec::new();
    let mut i: usize = 0;
    while i < details.variants.len()
        invariant
            i <= details.variants.len(),
            parts.len() == i,
            forall|k: int| 0 <= k < details.variants.len() ==> ts_variant_named(#[trigger] details.variants@[k]),
            f == (|v: UnionVariant| ts_union_part_text(details.representation, v)),
            parts@.map_values(|p: String| p@) =~= details.variants@.subrange(0, i as int).map_values(f),
        decreases details.variants.len() - i,
    {
        let part = ts_union_part(&details.representation, &details.variants[i]);
        let ghost before = parts@;
        parts.push(part);
        proof {
            let views = parts@.map_values(|p: String| p@);
            let want = details.variants@.subrange(0, i as int + 1).map_values(f);
            assert forall|k: int| 0 <= k < views.len() implies views[k] == want[k] by {
                if k < i {
                    assert(parts@[k] == before[k]);
                    assert(before.map_values(|p: String| p@)[k] == details.variants@.subrange(0, i as int).map_values(f)[k]);
                }
            }
            assert(views =~= want);
        }
        i = i + 1;
    }
    assert(details.variants@.subrange(0, details.variants.len() as int) =~= details.variants@);
    let mut s = String::from_str("type ");
    s.append(details.name.as_str());
    s.append(" = ");
    s.append(join_strings(&parts, " | ").as_str());
    s.append(";\n");
    s
}

/// Whether TypeScript can express `ty`: every union variant needs a name.
pub open spec fn ts_supports(ty: Type) -> bool {
    match ty {
        Type::Union(u) => forall|i: int| 0 <= i < u.variants.len() ==> ts_variant_named(#[trigger] u.variants@[i]),
        _ => true,
    }
}

/// The TypeScript text for a registered type.
pub open spec fn ts_text_of(ty: Type) -> Seq<char> {
    match ty {
        Type::Struct(s) => ts_struct_text(s),
        Type::Enum(e) => ts_enum_text(e),
        Type::Union(u) => ts_union_text(u),
        Type::NewType(n) => ts_newtype_text(n),
        Type::Alias(a) => ts_alias_text(a),
    }
}

/// A registered type to be written out as TypeScript.
pub enum TypeScriptType<'a> {
    /// A struct.
    Struct(&'a Struct),
    /// A newtype.
    NewType(&'a NewType),
    /// A type alias.
    Alias(&'a Alias),
    /// A data-less enum.
    Enum(&'a Enum),
    /// A union.
    Union(&'a Union),
}

impl<'a> TypeScriptType<'a> {
    /// The type this stands for.
    pub open spec fn ty(&self) -> Type {
        match *self {
            TypeScriptType::Struct(s) => Type::Struct(*s),
            TypeScriptType::NewType(n) => Type::NewType(*n),
            TypeScriptType::Alias(a) => Type::Alias(*a),
            TypeScriptType::Enum(e) => Type::Enum(*e),
            TypeScriptType::Union(u) => Type::Union(*u),
        }
    }

    /// Views a registered type as TypeScript output.
    pub fn from_type(ty: &'a Type) -> (r: TypeScriptType<'a>)
        ensures
            r.ty() == *ty,
    {
        match ty {
            Type::Struct(inner) => TypeScriptType::Struct(inner),
            Type::Enum(inner) => TypeScriptType::Enum(inner),
            Type::Union(inner) => TypeScriptType::Union(inner),
            Type::NewType(inner) => TypeScriptType::NewType(inner),
            Type::Alias(inner) => TypeScriptType::Alias(inner),
        }
    }

    /// The TypeScript source for this type, or `None` where a union variant
    /// has no name to stand for its payload.
    pub fn render(&self) -> (r: Option<String>)
        ensures
            r is Some <==> ts_supports(self.ty()),
            r matches Some(t) ==> t@ == ts_text_of(self.ty()),
    {
        match self {
            TypeScriptType::Struct(details) => Some(ts_struct(details)),
            TypeScriptType::NewType(details) => Some(ts_newtype(details)),
            TypeScriptType::Alias(details) => Some(ts_alias(details)),
            TypeScriptType::Enum(details) => Some(ts_enum(details)),
            TypeScriptType::Union(details) => {
                if ts_union_supported(details) {
                    Some(ts_union(details))
                } else {
                    None
                }
            },
        }
    }
}

fn ts_union_supported(details: &Union) -> (r: bool)
    ensures
        r == ts_supports(Type::Union(*details)),
{
    let mut i: usize = 0;
    while i < details.variants.len()
        invariant
            i <= details.variants.len(),
            forall|k: int| 0 <= k < i ==> ts_variant_named(#[trigger] details.variants@[k]),
        decreases details.variants.len() - i,
    {
        let v = &details.variants[i];
        let named = match (&v.name, &v.ty) {
            (_, FieldType::Named(_)) => true,
            (_, FieldType::Optional(_)) => true,
            (Some(_), _) => true,
            (None, _) => false,
        };
        if !named {
            return false;
        }
        i = i + 1;
    }
    true
}

impl<'a> OutputFormat for TypeScriptType<'a> {
    open spec fn supports(ty: Type) -> bool {
        ts_supports(ty)
    }

    open spec fn text_of(ty: Type) -> Seq<char> {
        ts_text_of(ty)
    }

    fn supports_type(ty: &Type) -> (r: bool) {
        match ty {
            Type::Union(u) => ts_union_supported(u),
            _ => true,
        }
    }

    fn render_type(ty: &Type) -> (r: String) {
        match ty {
            Type::Struct(details) => ts_struct(details),
            Type::NewType(details) => ts_newtype(details),
            Type::Alias(details) => ts_alias(details),
            Type::Enum(details) => ts_enum(details),
            Type::Union(details) => ts_union(details),
        }
    }
}

} // verus!

verus! {

/// A struct field written as a TypeScript property.
pub struct TypeScriptField<'a>(pub &'a Field);

impl<'a> TypeScriptField<'a> {
    /// The property declaration, keyed by the wire name.
    pub fn render(&self) -> (r: String)
        ensures
            r@ == ts_field_text(*self.0),
    {
        ts_field(self.0)
    }
}

} // verus!
