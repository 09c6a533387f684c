//! Swift enums with associated values for unions, with coding for the
//! adjacently and externally tagged representations.

use vstd::prelude::*;
use vstd::string::*;

use crate::case::{camel_case, to_camel_case};
use crate::swift::codable::{codable_parts_text, twice, Codable};
use crate::swift::coding_keys::{coding_key_parts_text, coding_keys_parts_text};
use crate::swift::structs::once;
use crate::swift::{swift_type_ok, swift_type_text};
use crate::text::{concat_each, concat_each_with, concat_map, indented, indent_text};
use crate::types::{self, has_label, variant_label, UnionRepresentation};

verus! {

/// A union variant as Swift sees it.
#[derive(Debug)]
pub struct Variant {
    /// The case name, in camelCase.
    pub name: String,
    /// The Swift type of the payload.
    pub ty: String,
    /// The wire name.
    pub serde_name: String,
}

/// A Swift enum for a union.
#[derive(Debug)]
pub struct Union {
    /// The enum name.
    pub name: String,
    /// The cases.
    pub variants: Vec<Variant>,
    /// How the union is represented on the wire.
    pub representation: UnionRepresentation,
}

/// Whether Swift can express a union variant: it has a label and its type
/// can be spelt.
pub open spec fn variant_ok(v: types::UnionVariant) -> bool {
    has_label(v) && swift_type_ok(v.ty)
}

/// Whether Swift output supports a representation.
pub open spec fn representation_ok(repr: UnionRepresentation) -> bool {
    repr is AdjacentlyTagged || repr is ExternallyTagged
}

/// The case made of a union variant.
pub open spec fn variant_made_from(v: Variant, from: types::UnionVariant) -> bool {
    &&& v.name@ == camel_case(variant_label(from))
    &&& v.ty@ == swift_type_text(from.ty)
    &&& v.serde_name@ == from.serialized_name@
}

/// An enum case with its payload type.
pub open spec fn case_parts_text(name: Seq<char>, ty: Seq<char>) -> Seq<char> {
    "case "@ + name + "("@ + ty + ")\n"@
}

/// How `encode(to:)` writes one case.
pub open spec fn encode_case_parts_text(
    repr: UnionRepresentation,
    union_name: Seq<char>,
    name: Seq<char>,
) -> Seq<char> {
    match repr {
        UnionRepresentation::AdjacentlyTagged { .. } => "case ."@ + name
            + "(let data):\n    try container.encode("@ + union_name + ".CodingKeys."@ + name
            + ", forKey: .tag)\n    try container.encode(data, forKey: .data)\n"@,
        _ => "case ."@ + name + "(let data):\n    try container.encode(data, forKey: ."@ + name
            + ")\n"@,
    }
}

/// How `init(from:)` reads one case.
pub open spec fn decode_case_parts_text(
    repr: UnionRepresentation,
    name: Seq<char>,
    ty: Seq<char>,
) -> Seq<char> {
    match repr {
        UnionRepresentation::AdjacentlyTagged { .. } => "case ."@ + name + ":\n    self = ."@ + name
            + "(try container.decode("@ + ty + ".self, forKey: .data))\n"@,
        _ => "if container.contains(."@ + name + ") {\n    self = ."@ + name
            + "(try container.decode("@ + ty + ".self, forKey: ."@ + name + "))\n    return\n}\n"@,
    }
}

/// The keys of the tag and content members.
pub open spec fn container_keys_text(tag: Seq<char>, content: Seq<char>) -> Seq<char> {
    "enum ContainerKeys: String, CodingKey {\n    case tag = \""@ + tag + "\"\n    case data = \""@
        + content + "\"\n}\n"@
}

/// The body of `encode(to:)` around its cases.
pub open spec fn encodable_text(repr: UnionRepresentation, name: Seq<char>, cases: Seq<char>) -> Seq<char> {
    match repr {
        UnionRepresentation::AdjacentlyTagged { tag, content } => container_keys_text(tag@, content@)
            + "var container = encoder.container(keyedBy: ContainerKeys.self)\nswitch self {\n"@
            + once(cases) + "}\n"@,
        _ => "var container = encoder.container(keyedBy: "@ + name
            + ".CodingKeys.self)\nswitch self {\n"@ + once(cases) + "}\n"@,
    }
}

/// The body of `init(from:)` around its cases.
pub open spec fn decodable_text(repr: UnionRepresentation, name: Seq<char>, cases: Seq<char>) -> Seq<char> {
    match repr {
        UnionRepresentation::AdjacentlyTagged { tag, content } => container_keys_text(tag@, content@)
            + "let container = try decoder.container(keyedBy: ContainerKeys.self)\nlet key = try container.decode("@
            + name + ".CodingKeys.self, forKey: .tag)\nswitch key {\n"@ + once(cases) + "}\n"@,
        _ => "let container = try decoder.container(keyedBy: "@ + name
            + ".CodingKeys.self)\nguard container.allKeys.count == 1 else {\n    throw DecodingError.dataCorrupted(.init(codingPath: decoder.codingPath, debugDescription: \"expected exactly one key for "@
            + name + "\"))\n}\n"@ + cases
            + "throw DecodingError.dataCorrupted(.init(codingPath: decoder.codingPath, debugDescription: \"unknown variant of "@
            + name + "\"))\n"@,
    }
}

/// A union enum made of these parts: its cases, its coding keys, and the
/// cases of its coding.
pub open spec fn union_parts_text(
    repr: UnionRepresentation,
    name: Seq<char>,
    cases: Seq<char>,
    keys: Seq<char>,
    encode_cases: Seq<char>,
    decode_cases: Seq<char>,
) -> Seq<char> {
    "public enum "@ + name + " {\n"@ + once(cases) + once(
        coding_keys_parts_text("CodingKeys"@, keys) + "\n"@,
    ) + "}\n\n"@ + codable_parts_text(
        name,
        twice(encodable_text(repr, name, encode_cases)),
        twice(decodable_text(repr, name, decode_cases)),
    ) + "\n"@
}

/// The Swift source of a union.
pub open spec fn union_text(u: Union) -> Seq<char> {
    union_parts_text(
        u.representation,
        u.name@,
        concat_map(u.variants@, |v: Variant| case_parts_text(v.name@, v.ty@)),
        concat_map(u.variants@, |v: Variant| coding_key_parts_text(v.name@, v.serde_name@)),
        concat_map(
            u.variants@,
            |v: Variant| encode_case_parts_text(u.representation, u.name@, v.name@),
        ),
        concat_map(u.variants@, |v: Variant| decode_case_parts_text(u.representation, v.name@, v.ty@)),
    )
}

fn render_case(v: &Variant) -> (r: String)
    ensures
        r@ == case_parts_text(v.name@, v.ty@),
{
    let mut s = String::from_str("case ");
    s.append(v.name.as_str());
    s.append("(");
    s.append(v.ty.as_str());
    s.append(")\n");
    s
}

fn render_key(v: &Variant) -> (r: String)
    ensures
        r@ == coding_key_parts_text(v.name@, v.serde_name@),
{
    let mut s = String::from_str("case ");
    s.append(v.name.as_str());
    s.append(" = \"");
    s.append(v.serde_name.as_str());
    s.append("\"\n");
    s
}

fn encode_case(u: &Union, v: &Variant) -> (r: String)
    ensures
        r@ == encode_case_parts_text(u.representation, u.name@, v.name@),
{
    match u.representation {
        UnionRepresentation::AdjacentlyTagged { .. } => {
            let mut s = String::from_str("case .");
            s.append(v.name.as_str());
            s.append("(let data):\n    try container.encode(");
            s.append(u.name.as_str());
            s.append(".CodingKeys.");
            s.append(v.name.as_str());
            s.append(", forKey: .tag)\n    try container.encode(data, forKey: .data)\n");
            s
        },
        _ => {
            let mut s = String::from_str("case .");
            s.append(v.name.as_str());
            s.append("(let data):\n    try container.encode(data, forKey: .");
            s.append(v.name.as_str());
            s.append(")\n");
            s
        },
    }
}

fn decode_case(u: &Union, v: &Variant) -> (r: String)
    ensures
        r@ == decode_case_parts_text(u.representation, v.name@, v.ty@),
{
    match u.representation {
        UnionRepresentation::AdjacentlyTagged { .. } => {
            let mut s = String::from_str("case .");
            s.append(v.name.as_str());
            s.append(":\n    self = .");
            s.append(v.name.as_str());
            s.append("(try container.decode(");
            s.append(v.ty.as_str());
            s.append(".self, forKey: .data))\n");
            s
        },
        _ => {
            let mut s = String::from_str("if container.contains(.");
            s.append(v.name.as_str());
            s.append(") {\n    self = .");
            s.append(v.name.as_str());
            s.append("(try container.decode(");
            s.append(v.ty.as_str());
            s.append(".self, forKey: .");
            s.append(v.name.as_str());
            s.append("))\n    return\n}\n");
            s
        },
    }
}

fn container_keys(tag: &String, content: &String) -> (r: String)
    ensures
        r@ == container_keys_text(tag@, content@),
{
    let mut s = String::from_str("enum ContainerKeys: String, CodingKey {\n    case tag = \"");
    s.append(tag.as_str());
    s.append("\"\n    case data = \"");
    s.append(content.as_str());
    s.append("\"\n}\n");
    s
}

fn encodable(repr: &UnionRepresentation, name: &String, cases: &String) -> (r: String)
    ensures
        r@ == encodable_text(*repr, name@, cases@),
{
    match repr {
        UnionRepresentation::AdjacentlyTagged { tag, content } => {
            let mut s = container_keys(tag, content);
            s.append("var container = encoder.container(keyedBy: ContainerKeys.self)\nswitch self {\n");
            s.append(indented(cases.as_str(), "    ").as_str());
            s.append("}\n");
            s
        },
        _ => {
            let mut s = String::from_str("var container = encoder.container(keyedBy: ");
            s.append(name.as_str());
            s.append(".CodingKeys.self)\nswitch self {\n");
            s.append(indented(cases.as_str(), "    ").as_str());
            s.append("}\n");
            s
        },
    }
}

fn decodable(repr: &UnionRepresentation, name: &String, cases: &String) -> (r: String)
    ensures
        r@ == decodable_text(*repr, name@, cases@),
{
    match repr {
        UnionRepresentation::AdjacentlyTagged { tag, content } => {
            let mut s = container_keys(tag, content);
            s.append(
                "let container = try decoder.container(keyedBy: ContainerKeys.self)\nlet key = try container.decode(",
            );
            s.append(name.as_str());
            s.append(".CodingKeys.self, forKey: .tag)\nswitch key {\n");
            s.append(indented(cases.as_str(), "    ").as_str());
            s.append("}\n");
            s
        },
        _ => {
            let mut s = String::from_str("let container = try decoder.container(keyedBy: ");
            s.append(name.as_str());
            s.append(
                ".CodingKeys.self)\nguard container.allKeys.count == 1 else {\n    throw DecodingError.dataCorrupted(.init(codingPath: decoder.codingPath, debugDescription: \"expected exactly one key for ",
            );
            s.append(name.as_str());
            s.append("\"))\n}\n");
            s.append(cases.as_str());
            s.append(
                "throw DecodingError.dataCorrupted(.init(codingPath: decoder.codingPath, debugDescription: \"unknown variant of ",
            );
            s.append(name.as_str());
            s.append("\"))\n");
            s
        },
    }
}

impl Union {
    /// A union enum without cases.
    pub fn new(name: &str, representation: UnionRepresentation) -> (r: Union)
        ensures
            r.name@ == name@,
            r.variants@.len() == 0,
            r.representation == representation,
    {
        Union { name: name.to_string(), variants: Vec::new(), representation }
    }

    /// This union with one case added per variant.
    pub fn with_variants(self, fields: &Vec<types::UnionVariant>) -> (r: Union)
        requires
            forall|j: int| 0 <= j < fields@.len() ==> variant_ok(#[trigger] fields@[j]),
        ensures
            r.name == self.name,
            r.representation == self.representation,
            r.variants@.len() == self.variants@.len() + fields@.len(),
            forall|i: int| 0 <= i < self.variants@.len() ==> r.variants@[i] == self.variants@[i],
            forall|j: int|
                0 <= j < fields@.len() ==> variant_made_from(
                    #[trigger] r.variants@[self.variants@.len() + j],
                    fields@[j],
                ),
    {
        let mut this = self;
        let ghost n = self.variants@.len();
        let mut i: usize = 0;
        while i < fields.len()
            invariant
                i <= fields.len(),
                n == self.variants@.len(),
                forall|j: int| 0 <= j < fields@.len() ==> variant_ok(#[trigger] fields@[j]),
                this.name == self.name,
                this.representation == self.representation,
                this.variants@.len() == n + i,
                forall|k: int| 0 <= k < n ==> this.variants@[k] == self.variants@[k],
                forall|j: int| 0 <= j < i ==> variant_made_from(#[trigger] this.variants@[n + j], fields@[j]),
            decreases fields.len() - i,
        {
            let f = &fields[i];
            let name = to_camel_case(f.label().as_str());
            this.variants.push(
                Variant { name, ty: f.ty.swift_type(), serde_name: f.serialized_name.clone() },
            );
            assert(variant_made_from(this.variants@[n + i], fields@[i as int]));
            i = i + 1;
        }
        this
    }

    /// The Swift source of this union; the adjacently and externally tagged
    /// representations are supported.
    pub fn render(&self) -> (r: String)
        requires
            representation_ok(self.representation),
        ensures
            r@ == union_text(*self),
    {
        let cases = concat_each(
            &self.variants,
            render_case,
            Ghost(|v: Variant| case_parts_text(v.name@, v.ty@)),
        );
        let keys = concat_each(
            &self.variants,
            render_key,
            Ghost(|v: Variant| coding_key_parts_text(v.name@, v.serde_name@)),
        );
        let encode_cases = concat_each_with(
            self,
            &self.variants,
            encode_case,
            Ghost(|u: Union, v: Variant| encode_case_parts_text(u.representation, u.name@, v.name@)),
        );
        assert((|a: Variant| (|u: Union, v: Variant| encode_case_parts_text(u.representation, u.name@, v.name@))(*self, a))
            =~= (|v: Variant| encode_case_parts_text(self.representation, self.name@, v.name@)));
        let decode_cases = concat_each_with(
            self,
            &self.variants,
            decode_case,
            Ghost(|u: Union, v: Variant| decode_case_parts_text(u.representation, v.name@, v.ty@)),
        );
        assert((|a: Variant| (|u: Union, v: Variant| decode_case_parts_text(u.representation, v.name@, v.ty@))(*self, a))
            =~= (|v: Variant| decode_case_parts_text(self.representation, v.name@, v.ty@)));

        let mut coding_keys = String::from_str("enum ");
        coding_keys.append("CodingKeys");
        coding_keys.append(": String, CodingKey, Codable {\n");
        coding_keys.append(indented(keys.as_str(), "    ").as_str());
        coding_keys.append("}");
        coding_keys.append("\n");

        let mut s = String::from_str("public enum ");
        s.append(self.name.as_str());
        s.append(" {\n");
        s.append(indented(cases.as_str(), "    ").as_str());
        s.append(indented(coding_keys.as_str(), "    ").as_str());
        s.append("}\n\n");
        let codable = Codable::new(self.name.as_str())
            .with_encodable(encodable(&self.representation, &self.name, &encode_cases).as_str())
            .with_decodable(decodable(&self.representation, &self.name, &decode_cases).as_str());
        s.append(codable.render().as_str());
        s.append("\n");
        s
    }
}

} // verus!
