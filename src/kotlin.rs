//! The Kotlin backend: `kotlinx.serialization` data classes, enums and
//! sealed interfaces with hand-written serializers.

use vstd::prelude::*;
use vstd::string::*;

use crate::types::{FieldType, Primitive};

pub mod data_classes;
pub mod enums;
pub mod kserializer;
pub mod structs;
pub mod unions;
pub mod kotlin_type;



verus! {

/// Whether Kotlin can spell `t`: every type but time.
pub open spec fn kotlin_type_ok(t: FieldType) -> bool
    decreases t,
{
    match t {
        FieldType::Optional(inner) => kotlin_type_ok(*inner),
        FieldType::List(inner) => kotlin_type_ok(*inner),
        FieldType::Dictionary { key, value } => kotlin_type_ok(*key) && kotlin_type_ok(*value),
        FieldType::Named(_) => true,
        FieldType::Primitive(p) => p != Primitive::Time,
    }
}

/// The Kotlin spelling of a field type.
pub open spec fn kotlin_type_text(t: FieldType) -> Seq<char>
    decreases t,
{
    match t {
        FieldType::Named(r) => r.name@,
        FieldType::Optional(inner) => kotlin_type_text(*inner) + "?"@,
        FieldType::List(inner) => "List<"@ + kotlin_type_text(*inner) + ">"@,
        FieldType::Dictionary { key, value } => "Map<"@ + kotlin_type_text(*key) + ", "@
            + kotlin_type_text(*value) + ">"@,
        FieldType::Primitive(p) => kotlin_primitive_text(p),
    }
}

/// The Kotlin spelling of a primitive type.
pub open spec fn kotlin_primitive_text(p: Primitive) -> Seq<char> {
    match p {
        Primitive::String => "String"@,
        Primitive::Float => "Double"@,
        Primitive::Int => "Long"@,
        Primitive::Bool => "Boolean"@,
        Primitive::Time => Seq::empty(),
    }
}

/// The default a property of type `t` gets: `null` for optional values.
pub open spec fn default_str_text(t: FieldType) -> Seq<char> {
    if t is Optional {
        " = null"@
    } else {
        ""@
    }
}

/// The serializer expression for a value of type `t`.
pub open spec fn serializer_text(t: FieldType) -> Seq<char>
    decreases t,
{
    match t {
        FieldType::Optional(inner) => serializer_text(*inner) + ".nullable"@,
        FieldType::List(inner) => "ListSerializer("@ + serializer_text(*inner) + ")"@,
        FieldType::Dictionary { key, value } => "MapSerializer("@ + serializer_text(*key) + ", "@
            + serializer_text(*value) + ")"@,
        _ => kotlin_type_text(t) + ".serializer()"@,
    }
}

fn kotlin_primitive(p: Primitive) -> (r: String)
    requires
        p != Primitive::Time,
    ensures
        r@ == kotlin_primitive_text(p),
{
    match p {
        Primitive::String => String::from_str("String"),
        Primitive::Float => String::from_str("Double"),
        Primitive::Int => String::from_str("Long"),
        Primitive::Bool => String::from_str("Boolean"),
        Primitive::Time => String::new(),
    }
}

impl FieldType {
    /// Whether Kotlin can spell this type.
    pub fn kotlin_supported(&self) -> (r: bool)
        ensures
            r == kotlin_type_ok(*self),
        decreases self,
    {
        match self {
            FieldType::Optional(inner) => inner.kotlin_supported(),
            FieldType::List(inner) => inner.kotlin_supported(),
            FieldType::Dictionary { key, value } => key.kotlin_supported()
                && value.kotlin_supported(),
            FieldType::Named(_) => true,
            FieldType::Primitive(p) => !(*p == Primitive::Time),
        }
    }

    /// The Kotlin spelling of this type.
    pub fn kotlin_type(&self) -> (r: String)
        requires
            kotlin_type_ok(*self),
        ensures
            r@ == kotlin_type_text(*self),
        decreases self,
    {
        match self {
            FieldType::Named(type_ref) => type_ref.name().to_string(),
            FieldType::Optional(inner) => {
                let mut s = inner.kotlin_type();
                s.append("?");
                s
            },
            FieldType::List(inner) => {
                let mut s = String::from_str("List<");
                s.append(inner.kotlin_type().as_str());
                s.append(">");
                s
            },
            FieldType::Dictionary { key, value } => {
                let mut s = String::from_str("Map<");
                s.append(key.kotlin_type().as_str());
                s.append(", ");
                s.append(value.kotlin_type().as_str());
                s.append(">");
                s
            },
            FieldType::Primitive(p) => kotlin_primitive(*p),
        }
    }

    /// The default a property of this type gets.
    pub fn default_str(&self) -> (r: &'static str)
        ensures
            r@ == default_str_text(*self),
    {
        match self {
            FieldType::Optional(_) => " = null",
            _ => "",
        }
    }

    /// The serializer expression for a value of this type.
    pub fn serializer(&self) -> (r: String)
        requires
            kotlin_type_ok(*self),
        ensures
            r@ == serializer_text(*self),
        decreases self,
    {
        match self {
            FieldType::Optional(inner) => {
                let mut s = inner.serializer();
                s.append(".nullable");
                s
            },
            FieldType::List(inner) => {
                let mut s = String::from_str("ListSerializer(");
                s.append(inner.serializer().as_str());
                s.append(")");
                s
            },
            FieldType::Dictionary { key, value } => {
                let mut s = String::from_str("MapSerializer(");
                s.append(key.serializer().as_str());
                s.append(", ");
                s.append(value.serializer().as_str());
                s.append(")");
                s
            },
            _ => {
                let mut s = self.kotlin_type();
                s.append(".serializer()");
                s
            },
        }
    }
}

/// The views of a sequence of strings.
pub open spec fn views(v: Seq<String>) -> Seq<Seq<char>> {
    v.map_values(|s: String| s@)
}

} // verus!
