//! Swift structs for structs and newtypes.

use vstd::prelude::*;
use vstd::string::*;

use crate::case::{camel_case, to_camel_case};
use crate::swift::codable::{codable_parts_text, twice, Codable};
use crate::swift::coding_keys::{coding_key_parts_text, coding_keys_parts_text, CodingKey, CodingKeys};
use crate::swift::{swift_type_ok, swift_type_text};
use crate::text::{
    concat_each, concat_map, indented, indent_text, join, join_strings, map_strings,
};
use crate::types::{self, FieldType};

verus! {

/// A stored property.
#[derive(Debug)]
pub struct StructField {
    /// The property name, in camelCase.
    pub name: String,
    /// The Swift type.
    pub ty: String,
    /// The wire name.
    pub serde_name: String,
}

/// A Swift struct, or the wrapper struct of a newtype.
#[derive(Debug)]
pub struct SwiftStruct {
    /// The struct name.
    pub name: String,
    /// The properties.
    pub fields: Vec<StructField>,
    /// Whether this wraps one value and codes as that value.
    pub newtype: bool,
}

/// The property made of a struct field.
pub open spec fn field_made_from(f: StructField, from: types::Field) -> bool {
    f.name@ == camel_case(from.name@) && f.ty@ == swift_type_text(from.ty) && f.serde_name@
        == from.serialized_name@
}

/// `text` indented one level.
pub open spec fn once(text: Seq<char>) -> Seq<char> {
    indent_text(text, "    "@, true)
}

/// A stored property declaration.
pub open spec fn decl_parts_text(name: Seq<char>, ty: Seq<char>) -> Seq<char> {
    "public var "@ + name + ": "@ + ty + "\n"@
}

/// An initializer parameter.
pub open spec fn param_parts_text(name: Seq<char>, ty: Seq<char>) -> Seq<char> {
    name + ": "@ + ty
}

/// An initializer assignment, indented.
pub open spec fn assign_parts_text(name: Seq<char>) -> Seq<char> {
    once("self."@ + name + " = "@ + name + "\n"@)
}

/// The coding of a newtype: the wrapped value alone.
pub open spec fn newtype_codable_text(name: Seq<char>, field: Seq<char>, ty: Seq<char>) -> Seq<char> {
    codable_parts_text(
        name,
        twice(
            "var container = encoder.singleValueContainer()\ntry container.encode(self."@ + field
                + ")\n"@,
        ),
        twice(
            "let container = try decoder.singleValueContainer()\nself."@ + field
                + " = try container.decode("@ + ty + ".self)\n"@,
        ),
    )
}

/// A struct made of these parts: its declarations, the parameters and
/// assignments of its initializer, and then its coding keys or, for a
/// newtype, the coding of its one value.
pub open spec fn struct_parts_text(
    name: Seq<char>,
    newtype: bool,
    decls: Seq<char>,
    params: Seq<Seq<char>>,
    assigns: Seq<char>,
    keys: Seq<char>,
    first_name: Seq<char>,
    first_ty: Seq<char>,
) -> Seq<char> {
    "public struct "@ + name + ": "@ + (if newtype {
        "Hashable"@
    } else {
        "Hashable, Codable"@
    }) + " {\n"@ + once(
        decls + "\npublic init(\n"@ + once(join(params, ",\n"@)) + ") {\n"@ + assigns + "}\n"@,
    ) + "}\n\n"@ + if newtype {
        "\n"@ + newtype_codable_text(name, first_name, first_ty) + "\n"@
    } else {
        "extension "@ + name + " {\n"@ + once(coding_keys_parts_text("CodingKeys"@, keys) + "\n"@)
            + "}\n"@
    }
}

/// The Swift source of a struct and its coding.
pub open spec fn struct_text(s: SwiftStruct) -> Seq<char> {
    struct_parts_text(
        s.name@,
        s.newtype,
        concat_map(s.fields@, |f: StructField| decl_parts_text(f.name@, f.ty@)),
        s.fields@.map_values(|f: StructField| param_parts_text(f.name@, f.ty@)),
        concat_map(s.fields@, |f: StructField| assign_parts_text(f.name@)),
        concat_map(s.fields@, |f: StructField| coding_key_parts_text(f.name@, f.serde_name@)),
        if s.fields@.len() > 0 {
            s.fields@[0].name@
        } else {
            Seq::empty()
        },
        if s.fields@.len() > 0 {
            s.fields@[0].ty@
        } else {
            Seq::empty()
        },
    )
}

fn render_decl(f: &StructField) -> (r: String)
    ensures
        r@ == decl_parts_text(f.name@, f.ty@),
{
    let mut s = String::from_str("public var ");
    s.append(f.name.as_str());
    s.append(": ");
    s.append(f.ty.as_str());
    s.append("\n");
    s
}

fn render_param(f: &StructField) -> (r: String)
    ensures
        r@ == param_parts_text(f.name@, f.ty@),
{
    let mut s = f.name.clone();
    s.append(": ");
    s.append(f.ty.as_str());
    s
}

fn render_assign(f: &StructField) -> (r: String)
    ensures
        r@ == assign_parts_text(f.name@),
{
    let mut s = String::from_str("self.");
    s.append(f.name.as_str());
    s.append(" = ");
    s.append(f.name.as_str());
    s.append("\n");
    indented(s.as_str(), "    ")
}

fn render_key(f: &StructField) -> (r: String)
    ensures
        r@ == coding_key_parts_text(f.name@, f.serde_name@),
{
    let mut s = String::from_str("case ");
    s.append(f.name.as_str());
    s.append(" = \"");
    s.append(f.serde_name.as_str());
    s.append("\"\n");
    s
}

impl SwiftStruct {
    /// A struct without properties.
    pub fn new(name: &str) -> (r: SwiftStruct)
        ensures
            r.name@ == name@,
            r.fields@.len() == 0,
            !r.newtype,
    {
        SwiftStruct { name: name.to_string(), fields: Vec::new(), newtype: false }
    }

    /// The wrapper struct of a newtype over `ty`, whose one property is
    /// `value`.
    pub fn newtype(name: &str, ty: &FieldType) -> (r: SwiftStruct)
        requires
            swift_type_ok(*ty),
        ensures
            r.name@ == name@,
            r.newtype,
            r.fields@.len() == 1,
            r.fields@[0].name@ == "value"@,
            r.fields@[0].ty@ == swift_type_text(*ty),
            r.fields@[0].serde_name@ == ""@,
    {
        let mut fields: Vec<StructField> = Vec::new();
        fields.push(
            StructField {
                name: String::from_str("value"),
                ty: ty.swift_type(),
                serde_name: String::from_str(""),
            },
        );
        SwiftStruct { name: name.to_string(), fields, newtype: true }
    }

    /// This struct with one property added per field.
    pub fn with_fields(self, fields: &Vec<types::Field>) -> (r: SwiftStruct)
        requires
            forall|j: int| 0 <= j < fields@.len() ==> swift_type_ok(#[trigger] fields@[j].ty),
        ensures
            r.name == self.name,
            r.newtype == self.newtype,
            r.fields@.len() == self.fields@.len() + fields@.len(),
            forall|i: int| 0 <= i < self.fields@.len() ==> r.fields@[i] == self.fields@[i],
            forall|j: int|
                0 <= j < fields@.len() ==> field_made_from(
                    #[trigger] r.fields@[self.fields@.len() + j],
                    fields@[j],
                ),
    {
        let mut this = self;
        let ghost n = self.fields@.len();
        let mut i: usize = 0;
        while i < fields.len()
            invariant
                i <= fields.len(),
                n == self.fields@.len(),
                forall|j: int| 0 <= j < fields@.len() ==> swift_type_ok(#[trigger] fields@[j].ty),
                this.name == self.name,
                this.newtype == self.newtype,
                this.fields@.len() == n + i,
                forall|k: int| 0 <= k < n ==> this.fields@[k] == self.fields@[k],
                forall|j: int| 0 <= j < i ==> field_made_from(#[trigger] this.fields@[n + j], fields@[j]),
            decreases fields.len() - i,
        {
            let f = &fields[i];
            this.fields.push(
                StructField {
                    name: to_camel_case(f.name.as_str()),
                    ty: f.ty.swift_type(),
                    serde_name: f.serialized_name.clone(),
                },
            );
            assert(field_made_from(this.fields@[n + i], fields@[i as int]));
            i = i + 1;
        }
        this
    }

    /// The Swift source of this struct and its coding.
    pub fn render(&self) -> (r: String)
        requires
            self.newtype ==> self.fields@.len() > 0,
        ensures
            r@ == struct_text(*self),
    {
        let decls = concat_each(
            &self.fields,
            render_decl,
            Ghost(|f: StructField| decl_parts_text(f.name@, f.ty@)),
        );
        let params = map_strings(
            &self.fields,
            render_param,
            Ghost(|f: StructField| param_parts_text(f.name@, f.ty@)),
        );
        let assigns = concat_each(
            &self.fields,
            render_assign,
            Ghost(|f: StructField| assign_parts_text(f.name@)),
        );
        let joined = join_strings(&params, ",\n");
        assert(joined@ == join(self.fields@.map_values(|f: StructField| param_parts_text(f.name@, f.ty@)), ",\n"@));
        let mut block = decls;
        block.append("\npublic init(\n");
        block.append(indented(joined.as_str(), "    ").as_str());
        block.append(") {\n");
        block.append(assigns.as_str());
        block.append("}\n");

        let mut s = String::from_str("public struct ");
        s.append(self.name.as_str());
        s.append(": ");
        if self.newtype {
            s.append("Hashable");
        } else {
            s.append("Hashable, Codable");
        }
        s.append(" {\n");
        s.append(indented(block.as_str(), "    ").as_str());
        s.append("}\n\n");
        if !self.newtype {
            let keys = concat_each(
                &self.fields,
                render_key,
                Ghost(|f: StructField| coding_key_parts_text(f.name@, f.serde_name@)),
            );
            let mut coding_keys = String::from_str("enum ");
            coding_keys.append("CodingKeys");
            coding_keys.append(": String, CodingKey, Codable {\n");
            coding_keys.append(indented(keys.as_str(), "    ").as_str());
            coding_keys.append("}");
            coding_keys.append("\n");
            s.append("extension ");
            s.append(self.name.as_str());
            s.append(" {\n");
            s.append(indented(coding_keys.as_str(), "    ").as_str());
            s.append("}\n");
        } else {
            let field = &self.fields[0];
            let mut decodable = String::from_str(
                "let container = try decoder.singleValueContainer()\nself.",
            );
            decodable.append(field.name.as_str());
            decodable.append(" = try container.decode(");
            decodable.append(field.ty.as_str());
            decodable.append(".self)\n");
            let mut encodable = String::from_str(
                "var container = encoder.singleValueContainer()\ntry container.encode(self.",
            );
            encodable.append(field.name.as_str());
            encodable.append(")\n");
            let codable = Codable::new(self.name.as_str()).with_decodable(decodable.as_str())
                .with_encodable(encodable.as_str());
            s.append("\n");
            s.append(codable.render().as_str());
            s.append("\n");
        }
        s
    }
}

} // verus!
