//! The Swift backend: `Codable` structs and enums, with hand-written coding
//! for unions.

use vstd::prelude::*;
use vstd::string::*;

use crate::case::{camel_case, to_camel_case};
use crate::types::{Field, FieldType, Primitive};

pub mod codable;
pub mod coding_keys;
pub mod enums;
pub mod structs;
pub mod swift_type;
pub mod unions;

verus! {

/// Whether Swift can spell `t`: every type but time.
pub open spec fn swift_type_ok(t: FieldType) -> bool
    decreases t,
{
    match t {
        FieldType::Optional(inner) => swift_type_ok(*inner),
        FieldType::List(inner) => swift_type_ok(*inner),
        FieldType::Dictionary { key, value } => swift_type_ok(*key) && swift_type_ok(*value),
        FieldType::Named(_) => true,
        FieldType::Primitive(p) => p != Primitive::Time,
    }
}

/// The Swift spelling of a field type.
pub open spec fn swift_type_text(t: FieldType) -> Seq<char>
    decreases t,
{
    match t {
        FieldType::Named(r) => r.name@,
        FieldType::Optional(inner) => swift_type_text(*inner) + "?"@,
        FieldType::List(inner) => "["@ + swift_type_text(*inner) + "]"@,
        FieldType::Dictionary { key, value } => "["@ + swift_type_text(*key) + ": "@
            + swift_type_text(*value) + "]"@,
        FieldType::Primitive(p) => swift_primitive_text(p),
    }
}

/// The Swift spelling of a primitive type.
pub open spec fn swift_primitive_text(p: Primitive) -> Seq<char> {
    match p {
        Primitive::String => "String"@,
        Primitive::Float => "Double"@,
        Primitive::Int => "Int64"@,
        Primitive::Bool => "Bool"@,
        Primitive::Time => Seq::empty(),
    }
}

fn swift_primitive(p: Primitive) -> (r: String)
    requires
        p != Primitive::Time,
    ensures
        r@ == swift_primitive_text(p),
{
    match p {
        Primitive::String => String::from_str("String"),
        Primitive::Float => String::from_str("Double"),
        Primitive::Int => String::from_str("Int64"),
        Primitive::Bool => String::from_str("Bool"),
        Primitive::Time => String::new(),
    }
}

impl FieldType {
    /// Whether Swift can spell this type.
    pub fn swift_supported(&self) -> (r: bool)
        ensures
            r == swift_type_ok(*self),
        decreases self,
    {
        match self {
            FieldType::Optional(inner) => inner.swift_supported(),
            FieldType::List(inner) => inner.swift_supported(),
            FieldType::Dictionary { key, value } => key.swift_supported()
                && value.swift_supported(),
            FieldType::Named(_) => true,
            FieldType::Primitive(p) => !(*p == Primitive::Time),
        }
    }

    /// The Swift spelling of this type.
    pub fn swift_type(&self) -> (r: String)
        requires
            swift_type_ok(*self),
        ensures
            r@ == swift_type_text(*self),
        decreases self,
    {
        match self {
            FieldType::Named(type_ref) => type_ref.name().to_string(),
            FieldType::Optional(inner) => {
                let mut s = inner.swift_type();
                s.append("?");
                s
            },
            FieldType::List(inner) => {
                let mut s = String::from_str("[");
                s.append(inner.swift_type().as_str());
                s.append("]");
                s
            },
            FieldType::Dictionary { key, value } => {
                let mut s = String::from_str("[");
                s.append(key.swift_type().as_str());
                s.append(": ");
                s.append(value.swift_type().as_str());
                s.append("]");
                s
            },
            FieldType::Primitive(p) => swift_primitive(*p),
        }
    }
}

/// A struct field as a Swift property declaration.
pub struct SwiftField<'a>(pub &'a Field);

/// A property declaration: camelCase name and Swift type.
pub open spec fn swift_field_text(f: Field) -> Seq<char> {
    "public var "@ + camel_case(f.name@) + ": "@ + swift_type_text(f.ty)
}

impl<'a> SwiftField<'a> {
    /// The declaration of the property.
    pub fn render(&self) -> (r: String)
        requires
            swift_type_ok(self.0.ty),
        ensures
            r@ == swift_field_text(*self.0),
    {
        let mut s = String::from_str("public var ");
        s.append(to_camel_case(self.0.name.as_str()).as_str());
        s.append(": ");
        s.append(self.0.ty.swift_type().as_str());
        s
    }
}

} // verus!
