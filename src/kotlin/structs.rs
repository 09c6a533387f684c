//! Kotlin classes for structs and newtypes.

use vstd::prelude::*;
use vstd::string::*;

use crate::kotlin::data_classes::{field_text, render_field, Field};
use crate::kotlin::{default_str_text, kotlin_type_ok, kotlin_type_text, serializer_text};
use crate::case::camel_case;
use crate::text::{concat_each, concat_map, indented, indent_text};
use crate::types::{self, FieldType};

verus! {

/// A class for a struct.
#[derive(Debug)]
pub struct NormalClass {
    /// The class name.
    pub name: String,
    /// The properties.
    pub fields: Vec<Field>,
}

/// A class for a newtype, with a serializer that writes the inner value.
#[derive(Debug)]
pub struct NewTypeClass {
    /// The class name.
    pub name: String,
    /// The Kotlin type of the inner value.
    pub ty: String,
    /// The default of the inner value.
    pub default_str: String,
    /// The serializer expression of the inner value.
    pub serializer: String,
}

/// A Kotlin class for a struct or a newtype.
#[derive(Debug)]
pub enum KotlinStruct {
    /// A struct.
    Normal(NormalClass),
    /// A newtype.
    NewType(NewTypeClass),
}

/// The property made of a struct field.
pub open spec fn field_made_from(f: Field, from: types::Field) -> bool {
    f.name@ == camel_case(from.name@) && f.ty@ == kotlin_type_text(from.ty) && f.serde_name@
        == from.serialized_name@ && f.default_str@ == default_str_text(from.ty)
}

/// The Kotlin source of a struct class.
pub open spec fn normal_class_text(c: NormalClass) -> Seq<char> {
    normal_class_parts_text(c.name@, concat_map(c.fields@, |f: Field| field_text(f)))
}

/// A data class with these properties.
pub open spec fn normal_class_parts_text(name: Seq<char>, fields: Seq<char>) -> Seq<char> {
    "@Serializable\ndata class "@ + name + "(\n"@ + indent_text(fields, "    "@, true) + ")\n\n"@
}

/// The Kotlin source of a newtype class.
pub open spec fn newtype_struct_text(n: NewTypeClass) -> Seq<char> {
    newtype_struct_parts_text(n.name@, n.ty@, n.default_str@, n.serializer@)
}

/// A newtype class, and a serializer object that writes the inner value.
pub open spec fn newtype_struct_parts_text(
    name: Seq<char>,
    ty: Seq<char>,
    default_str: Seq<char>,
    serializer: Seq<char>,
) -> Seq<char> {
    "@Serializable(with = "@ + name + "Serializer::class)\ndata class "@ + name
        + "(public var value: "@ + ty + " "@ + default_str + ")\n\n"@ + "object "@ + name
        + "Serializer : KSerializer<"@ + name + "> {\n    private val serializer = "@
        + serializer
        + ";\n\n    override val descriptor: SerialDescriptor = serialDescriptor<"@ + ty
        + ">()\n\n    override fun serialize(encoder: Encoder, value: "@ + name
        + ") {\n        encoder.serialize(serializer, value.value)\n    }\n\n    override fun deserialize(decoder: Decoder): "@
        + name + " {\n        return "@ + name + "(decoder.decode(serializer))\n    }\n}\n"@
}

/// The Kotlin source of a struct or newtype class.
pub open spec fn kotlin_struct_text(k: KotlinStruct) -> Seq<char> {
    match k {
        KotlinStruct::Normal(c) => normal_class_text(c),
        KotlinStruct::NewType(n) => newtype_struct_text(n),
    }
}

impl KotlinStruct {
    /// A class without properties.
    pub fn new(name: &str) -> (r: KotlinStruct)
        ensures
            r matches KotlinStruct::Normal(c) && c.name@ == name@ && c.fields@.len() == 0,
    {
        KotlinStruct::Normal(NormalClass { name: name.to_string(), fields: Vec::new() })
    }

    /// A newtype class wrapping a `ty` value.
    pub fn newtype(name: &str, ty: &FieldType) -> (r: KotlinStruct)
        requires
            kotlin_type_ok(*ty),
        ensures
            r matches KotlinStruct::NewType(n) && n.name@ == name@ && n.ty@ == kotlin_type_text(
                *ty,
            ) && n.default_str@ == default_str_text(*ty) && n.serializer@ == serializer_text(*ty),
    {
        KotlinStruct::NewType(
            NewTypeClass {
                name: name.to_string(),
                ty: ty.kotlin_type(),
                default_str: ty.default_str().to_string(),
                serializer: ty.serializer(),
            },
        )
    }

    /// This class with one property added per field.
    pub fn with_fields(self, new_fields: &Vec<types::Field>) -> (r: KotlinStruct)
        requires
            self is Normal,
            forall|j: int| 0 <= j < new_fields@.len() ==> kotlin_type_ok(#[trigger] new_fields@[j].ty),
        ensures
            r matches KotlinStruct::Normal(c) && self matches KotlinStruct::Normal(old_c) && c.name
                == old_c.name && c.fields@.len() == old_c.fields@.len() + new_fields@.len() && (
            forall|i: int| 0 <= i < old_c.fields@.len() ==> c.fields@[i] == old_c.fields@[i]) && (
            forall|j: int|
                0 <= j < new_fields@.len() ==> field_made_from(
                    #[trigger] c.fields@[old_c.fields@.len() + j],
                    new_fields@[j],
                )),
    {
        match self {
            KotlinStruct::Normal(c) => {
                let mut c = c;
                let ghost start = c;
                let ghost n = c.fields@.len();
                let mut i: usize = 0;
                while i < new_fields.len()
                    invariant
                        i <= new_fields.len(),
                        n == start.fields@.len(),
                        forall|j: int| 0 <= j < new_fields@.len() ==> kotlin_type_ok(#[trigger] new_fields@[j].ty),
                        c.name == start.name,
                        c.fields@.len() == n + i,
                        forall|k: int| 0 <= k < n ==> c.fields@[k] == start.fields@[k],
                        forall|j: int| 0 <= j < i ==> field_made_from(#[trigger] c.fields@[n + j], new_fields@[j]),
                    decreases new_fields.len() - i,
                {
                    c.fields.push(Field::from_field(&new_fields[i]));
                    assert(field_made_from(c.fields@[n + i], new_fields@[i as int]));
                    i = i + 1;
                }
                KotlinStruct::Normal(c)
            },
            KotlinStruct::NewType(n) => KotlinStruct::NewType(n),
        }
    }

    /// The Kotlin source of this class.
    pub fn render(&self) -> (r: String)
        ensures
            r@ == kotlin_struct_text(*self),
    {
        match self {
            KotlinStruct::Normal(c) => {
                let body = concat_each(&c.fields, render_field, Ghost(|f: Field| field_text(f)));
                let mut s = String::from_str("@Serializable\ndata class ");
                s.append(c.name.as_str());
                s.append("(\n");
                s.append(indented(body.as_str(), "    ").as_str());
                s.append(")\n\n");
                s
            },
            KotlinStruct::NewType(n) => {
                let name = n.name.as_str();
                let mut s = String::from_str("@Serializable(with = ");
                s.append(name);
                s.append("Serializer::class)\ndata class ");
                s.append(name);
                s.append("(public var value: ");
                s.append(n.ty.as_str());
                s.append(" ");
                s.append(n.default_str.as_str());
                s.append(")\n\n");
                s.append("object ");
                s.append(name);
                s.append("Serializer : KSerializer<");
                s.append(name);
                s.append("> {\n    private val serializer = ");
                s.append(n.serializer.as_str());
                s.append(";\n\n    override val descriptor: SerialDescriptor = serialDescriptor<");
                s.append(n.ty.as_str());
                s.append(">()\n\n    override fun serialize(encoder: Encoder, value: ");
                s.append(name);
                s.append(
                    ") {\n        encoder.serialize(serializer, value.value)\n    }\n\n    override fun deserialize(decoder: Decoder): ",
                );
                s.append(name);
                s.append(" {\n        return ");
                s.append(name);
                s.append("(decoder.decode(serializer))\n    }\n}\n");
                s
            },
        }
    }
}

} // verus!
