//! Swift `CodingKeys` enums: model names mapped to wire names.

use vstd::prelude::*;
use vstd::string::*;

use crate::text::{concat_each, concat_map, indented, indent_text};

verus! {

/// One coding key: a model name and its wire name.
#[derive(Debug)]
pub struct CodingKey {
    /// The name in the model.
    pub name: String,
    /// The name on the wire.
    pub serde_name: String,
}

/// A `CodingKeys` enum.
#[derive(Debug)]
pub struct CodingKeys {
    /// The enum name, `CodingKeys` when absent.
    pub name: Option<String>,
    /// The keys.
    pub fields: Vec<CodingKey>,
}

/// One case of a keys enum.
pub open spec fn coding_key_text(k: CodingKey) -> Seq<char> {
    coding_key_parts_text(k.name@, k.serde_name@)
}

/// A case mapping a model name to a wire name.
pub open spec fn coding_key_parts_text(name: Seq<char>, serde_name: Seq<char>) -> Seq<char> {
    "case "@ + name + " = \""@ + serde_name + "\"\n"@
}

/// A keys enum named `name` with these cases.
pub open spec fn coding_keys_parts_text(name: Seq<char>, keys: Seq<char>) -> Seq<char> {
    "enum "@ + name + ": String, CodingKey, Codable {\n"@ + indent_text(keys, "    "@, true)
        + "}"@
}

/// The Swift source of a keys enum.
pub open spec fn coding_keys_text(c: CodingKeys) -> Seq<char> {
    coding_keys_parts_text(
        match c.name {
            Some(n) => n@,
            None => "CodingKeys"@,
        },
        concat_map(c.fields@, |k: CodingKey| coding_key_text(k)),
    )
}

fn render_key(k: &CodingKey) -> (r: String)
    ensures
        r@ == coding_key_text(*k),
{
    let mut s = String::from_str("case ");
    s.append(k.name.as_str());
    s.append(" = \"");
    s.append(k.serde_name.as_str());
    s.append("\"\n");
    s
}

impl CodingKeys {
    /// An unnamed enum without keys.
    pub fn new() -> (r: CodingKeys)
        ensures
            r.name is None,
            r.fields@.len() == 0,
    {
        CodingKeys { name: None, fields: Vec::new() }
    }

    /// This enum under another name.
    pub fn with_name(self, name: &str) -> (r: CodingKeys)
        ensures
            r.name matches Some(n) && n@ == name@,
            r.fields == self.fields,
    {
        CodingKeys { name: Some(name.to_string()), fields: self.fields }
    }

    /// This enum with more keys.
    pub fn with_fields(self, fields: Vec<CodingKey>) -> (r: CodingKeys)
        ensures
            r.name == self.name,
            r.fields@ == self.fields@ + fields@,
    {
        let mut this = self;
        let mut fields = fields;
        this.fields.append(&mut fields);
        this
    }

    /// The Swift source of this enum.
    pub fn render(&self) -> (r: String)
        ensures
            r@ == coding_keys_text(*self),
    {
        let mut s = String::from_str("enum ");
        match &self.name {
            Some(n) => s.append(n.as_str()),
            None => s.append("CodingKeys"),
        }
        s.append(": String, CodingKey, Codable {\n");
        let keys = concat_each(&self.fields, render_key, Ghost(|k: CodingKey| coding_key_text(k)));
        s.append(indented(keys.as_str(), "    ").as_str());
        s.append("}");
        s
    }
}

} // verus!
