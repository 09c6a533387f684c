//! Kotlin data classes and the newtype classes built on them.

use vstd::prelude::*;
use vstd::string::*;

use crate::case::{camel_case, to_camel_case};
use crate::kotlin::{default_str_text, kotlin_type_ok, kotlin_type_text, views};
use crate::text::{concat_each, concat_map, indented, indent_text, join, join_strings};
use crate::types;

verus! {

/// A property of a data class.
#[derive(Debug)]
pub struct Field {
    /// The property name.
    pub name: String,
    /// The property type.
    pub ty: String,
    /// The name of the property on the wire.
    pub serde_name: String,
    /// What follows the type: a default value, if any.
    pub default_str: String,
}

impl Field {
    /// The property for a struct field: camelCase name, Kotlin type and wire
    /// name.
    pub fn from_field(val: &types::Field) -> (r: Field)
        requires
            kotlin_type_ok(val.ty),
        ensures
            r.name@ == camel_case(val.name@),
            r.ty@ == kotlin_type_text(val.ty),
            r.serde_name@ == val.serialized_name@,
            r.default_str@ == default_str_text(val.ty),
    {
        Field {
            name: to_camel_case(val.name.as_str()),
            ty: val.ty.kotlin_type(),
            serde_name: val.serialized_name.clone(),
            default_str: val.ty.default_str().to_string(),
        }
    }
}

/// A property: its wire name annotation, then its declaration.
pub open spec fn field_text(f: Field) -> Seq<char> {
    field_parts_text(f.serde_name@, f.name@, f.ty@, f.default_str@)
}

/// A property made of these parts.
pub open spec fn field_parts_text(
    serde_name: Seq<char>,
    name: Seq<char>,
    ty: Seq<char>,
    default_str: Seq<char>,
) -> Seq<char> {
    "@SerialName(\""@ + serde_name + "\")\npublic var "@ + name + ": "@ + ty + default_str + ",\n"@
}

/// The text of a property.
pub fn render_field(f: &Field) -> (r: String)
    ensures
        r@ == field_text(*f),
{
    let mut s = String::from_str("@SerialName(\"");
    s.append(f.serde_name.as_str());
    s.append("\")\npublic var ");
    s.append(f.name.as_str());
    s.append(": ");
    s.append(f.ty.as_str());
    s.append(f.default_str.as_str());
    s.append(",\n");
    s
}

/// A data class with its properties, supertypes and custom serializer.
#[derive(Debug)]
pub struct DataClass {
    /// The class name.
    pub name: String,
    /// The supertypes.
    pub inherits: Vec<String>,
    /// The properties.
    pub fields: Vec<Field>,
    /// The serializer class, if any.
    pub serializer: Option<String>,
}

/// A data class made of these parts: its serializer, its name, the text of
/// its properties and its supertypes.
pub open spec fn data_class_parts_text(
    serializer: Option<Seq<char>>,
    name: Seq<char>,
    fields: Seq<char>,
    inherits: Seq<Seq<char>>,
) -> Seq<char> {
    "@Serializable"@ + match serializer {
        Some(s) => "(with = "@ + s + ")"@,
        None => Seq::empty(),
    } + "\ndata class "@ + name + "(\n"@ + indent_text(fields, "    "@, true) + ")"@ + if inherits.len()
        > 0 {
        ": "@ + join(inherits, ", "@)
    } else {
        Seq::empty()
    } + "\n\n"@
}

/// The Kotlin source of a data class.
pub open spec fn data_class_text(d: DataClass) -> Seq<char> {
    data_class_parts_text(
        match d.serializer {
            Some(s) => Some(s@),
            None => None,
        },
        d.name@,
        concat_map(d.fields@, |f: Field| field_text(f)),
        views(d.inherits@),
    )
}

impl DataClass {
    /// An empty data class.
    pub fn new(name: &str) -> (r: DataClass)
        ensures
            r.name@ == name@,
            r.inherits@.len() == 0,
            r.fields@.len() == 0,
            r.serializer is None,
    {
        DataClass {
            name: name.to_string(),
            inherits: Vec::new(),
            fields: Vec::new(),
            serializer: None,
        }
    }

    /// Adds properties after those already there.
    pub fn add_fields(&mut self, new_fields: Vec<Field>)
        ensures
            final(self).fields@ == old(self).fields@ + new_fields@,
            final(self).name == old(self).name,
            final(self).inherits == old(self).inherits,
            final(self).serializer == old(self).serializer,
    {
        let mut new_fields = new_fields;
        self.fields.append(&mut new_fields);
    }

    /// This class with properties added after those already there.
    pub fn with_fields(self, new_fields: Vec<Field>) -> (r: DataClass)
        ensures
            r.fields@ == self.fields@ + new_fields@,
            r.name == self.name,
            r.inherits == self.inherits,
            r.serializer == self.serializer,
    {
        let mut this = self;
        this.add_fields(new_fields);
        this
    }

    /// This class with one more supertype.
    pub fn with_inheritance(self, superclass: &str) -> (r: DataClass)
        ensures
            views(r.inherits@) == views(self.inherits@).push(superclass@),
            r.name == self.name,
            r.fields == self.fields,
            r.serializer == self.serializer,
    {
        let mut this = self;
        this.inherits.push(superclass.to_string());
        assert(views(this.inherits@) =~= views(self.inherits@).push(superclass@));
        this
    }

    /// This class serialized with the given serializer class.
    pub fn serialize_with(self, name: String) -> (r: DataClass)
        ensures
            r.serializer == Some(name),
            r.name == self.name,
            r.fields == self.fields,
            r.inherits == self.inherits,
    {
        let mut this = self;
        this.serializer = Some(name);
        this
    }

    /// The Kotlin source of this class.
    pub fn render(&self) -> (r: String)
        ensures
            r@ == data_class_text(*self),
    {
        let mut s = String::from_str("@Serializable");
        match &self.serializer {
            Some(serializer) => {
                s.append("(with = ");
                s.append(serializer.as_str());
                s.append(")");
            },
            None => {},
        }
        s.append("\ndata class ");
        s.append(self.name.as_str());
        s.append("(\n");
        let fields = concat_each(&self.fields, render_field, Ghost(|f: Field| field_text(f)));
        s.append(indented(fields.as_str(), "    ").as_str());
        s.append(")");
        if self.inherits.len() > 0 {
            s.append(": ");
            s.append(join_strings(&self.inherits, ", ").as_str());
        }
        s.append("\n\n");
        assert(views(self.inherits@) == self.inherits@.map_values(|p: String| p@));
        s
    }
}

/// The name of the serializer object for a class.
pub open spec fn serializer_name_text(name: Seq<char>) -> Seq<char> {
    name + "Serializer"@
}

/// The name of the serializer object for a class.
pub fn serializer_name(name: &str) -> (r: String)
    ensures
        r@ == serializer_name_text(name@),
{
    let mut s = name.to_string();
    s.append("Serializer");
    s
}

/// A class that wraps one value and serializes as that value.
#[derive(Debug)]
pub struct NewTypeClass {
    /// The class name.
    pub name: String,
    /// The serializer expression of the wrapped value.
    pub inner_serializer: String,
    /// The data class holding the value.
    pub dataclass: DataClass,
}

/// The serializer object of a newtype class.
pub open spec fn newtype_serializer_text(name: Seq<char>, inner_serializer: Seq<char>) -> Seq<char> {
    "object "@ + serializer_name_text(name) + " : KSerializer<"@ + name
        + "> {\n    private val serializer = "@ + inner_serializer
        + ";\n\n    override val descriptor: SerialDescriptor = serializer.descriptor;\n\n    override fun serialize(encoder: Encoder, value: "@
        + name
        + ") {\n        encoder.encodeSerializableValue(serializer, value.value)\n    }\n\n    override fun deserialize(decoder: Decoder): "@
        + name + " {\n        return "@ + name
        + "(decoder.decodeSerializableValue(serializer))\n    }\n}\n"@
}

/// A newtype class followed by its serializer object.
pub open spec fn newtype_class_text(n: NewTypeClass) -> Seq<char> {
    data_class_text(n.dataclass) + "\n"@ + newtype_serializer_text(n.name@, n.inner_serializer@)
}

impl NewTypeClass {
    /// A class named `name` wrapping a `ty` value, serialized through
    /// `inner_serializer`.
    pub fn new(name: &str, ty: String, inner_serializer: String) -> (r: NewTypeClass)
        ensures
            r.name@ == name@,
            r.inner_serializer == inner_serializer,
            r.dataclass.name@ == name@,
            r.dataclass.fields@.len() == 1,
            r.dataclass.fields@[0].name@ == "value"@,
            r.dataclass.fields@[0].ty == ty,
            r.dataclass.fields@[0].serde_name@ == "value"@,
            r.dataclass.fields@[0].default_str@ == ""@,
            r.dataclass.inherits@.len() == 0,
            r.dataclass.serializer matches Some(s) && s@ == serializer_name_text(name@)
                + "::class"@,
    {
        let mut class_name = serializer_name(name);
        class_name.append("::class");
        let field = Field {
            name: String::from_str("value"),
            ty,
            serde_name: String::from_str("value"),
            default_str: String::from_str(""),
        };
        let mut fields: Vec<Field> = Vec::new();
        fields.push(field);
        NewTypeClass {
            name: name.to_string(),
            inner_serializer,
            dataclass: DataClass::new(name).with_fields(fields).serialize_with(class_name),
        }
    }

    /// This class with the wrapped value defaulting as `default_str` says.
    pub fn with_default_string(self, default_str: &str) -> (r: NewTypeClass)
        requires
            self.dataclass.fields@.len() > 0,
        ensures
            r.name == self.name,
            r.inner_serializer == self.inner_serializer,
            r.dataclass.name == self.dataclass.name,
            r.dataclass.inherits == self.dataclass.inherits,
            r.dataclass.serializer == self.dataclass.serializer,
            r.dataclass.fields@.len() == self.dataclass.fields@.len(),
            r.dataclass.fields@[0].default_str@ == default_str@,
            r.dataclass.fields@[0].name == self.dataclass.fields@[0].name,
            r.dataclass.fields@[0].ty == self.dataclass.fields@[0].ty,
            r.dataclass.fields@[0].serde_name == self.dataclass.fields@[0].serde_name,
            r.dataclass.fields@.drop_first() == self.dataclass.fields@.drop_first(),
    {
        let mut this = self;
        let first = this.dataclass.fields.remove(0);
        let changed = Field {
            name: first.name,
            ty: first.ty,
            serde_name: first.serde_name,
            default_str: default_str.to_string(),
        };
        this.dataclass.fields.insert(0, changed);
        assert(this.dataclass.fields@.drop_first() =~= self.dataclass.fields@.drop_first());
        this
    }

    /// This class with one more supertype.
    pub fn with_inheritance(self, superclass: &str) -> (r: NewTypeClass)
        ensures
            r.name == self.name,
            r.inner_serializer == self.inner_serializer,
            r.dataclass.name == self.dataclass.name,
            r.dataclass.fields == self.dataclass.fields,
            r.dataclass.serializer == self.dataclass.serializer,
            views(r.dataclass.inherits@) == views(self.dataclass.inherits@).push(superclass@),
    {
        NewTypeClass {
            name: self.name,
            inner_serializer: self.inner_serializer,
            dataclass: self.dataclass.with_inheritance(superclass),
        }
    }

    /// The Kotlin source of this class and its serializer.
    pub fn render(&self) -> (r: String)
        ensures
            r@ == newtype_class_text(*self),
    {
        let name = self.name.as_str();
        let mut s = self.dataclass.render();
        s.append("\n");
        s.append("object ");
        s.append(serializer_name(name).as_str());
        s.append(" : KSerializer<");
        s.append(name);
        s.append("> {\n    private val serializer = ");
        s.append(self.inner_serializer.as_str());
        s.append(
            ";\n\n    override val descriptor: SerialDescriptor = serializer.descriptor;\n\n    override fun serialize(encoder: Encoder, value: ",
        );
        s.append(name);
        s.append(
            ") {\n        encoder.encodeSerializableValue(serializer, value.value)\n    }\n\n    override fun deserialize(decoder: Decoder): ",
        );
        s.append(name);
        s.append(" {\n        return ");
        s.append(name);
        s.append("(decoder.decodeSerializableValue(serializer))\n    }\n}\n");
        s
    }
}

} // verus!
