//! Swift `Decodable` and `Encodable` extensions put together from their
//! bodies.

use vstd::prelude::*;
use vstd::string::*;

use crate::text::{indented, indent_text};

verus! {

/// The coding extensions of a type.
#[derive(Debug)]
pub struct Codable {
    /// The type extended.
    pub name: String,
    /// The body of `encode(to:)`, indented.
    pub encodable_impl: String,
    /// The body of `init(from:)`, indented.
    pub decodable_impl: String,
}

/// `text` indented two levels.
pub open spec fn twice(text: Seq<char>) -> Seq<char> {
    indent_text(indent_text(text, "    "@, true), "    "@, true)
}

/// The extensions made of these parts.
pub open spec fn codable_parts_text(name: Seq<char>, encodable: Seq<char>, decodable: Seq<char>) -> Seq<char> {
    "extension "@ + name + ": Decodable {\n    public init(from decoder: Decoder) throws {\n"@
        + decodable + "\n    }\n}\n\nextension "@ + name
        + ": Encodable {\n    public func encode(to encoder: Encoder) throws {\n"@ + encodable
        + "\n    }\n}\n"@
}

/// The Swift source of the coding extensions.
pub open spec fn codable_text(c: Codable) -> Seq<char> {
    codable_parts_text(c.name@, c.encodable_impl@, c.decodable_impl@)
}

impl Codable {
    /// Extensions with empty bodies.
    pub fn new(name: &str) -> (r: Codable)
        ensures
            r.name@ == name@,
            r.encodable_impl@ == Seq::<char>::empty(),
            r.decodable_impl@ == Seq::<char>::empty(),
    {
        Codable { name: name.to_string(), encodable_impl: String::new(), decodable_impl: String::new() }
    }

    /// Adds to the body of `encode(to:)`, indented two levels.
    pub fn encodable(&mut self, encodable: &str)
        ensures
            final(self).encodable_impl@ == old(self).encodable_impl@ + twice(encodable@),
            final(self).name == old(self).name,
            final(self).decodable_impl == old(self).decodable_impl,
    {
        let once = indented(encodable, "    ");
        self.encodable_impl.append(indented(once.as_str(), "    ").as_str());
    }

    /// These extensions with more `encode(to:)` body.
    pub fn with_encodable(self, encodable: &str) -> (r: Codable)
        ensures
            r.encodable_impl@ == self.encodable_impl@ + twice(encodable@),
            r.name == self.name,
            r.decodable_impl == self.decodable_impl,
    {
        let mut this = self;
        this.encodable(encodable);
        this
    }

    /// Adds to the body of `init(from:)`, indented two levels.
    pub fn decodable(&mut self, decodable: &str)
        ensures
            final(self).decodable_impl@ == old(self).decodable_impl@ + twice(decodable@),
            final(self).name == old(self).name,
            final(self).encodable_impl == old(self).encodable_impl,
    {
        let once = indented(decodable, "    ");
        self.decodable_impl.append(indented(once.as_str(), "    ").as_str());
    }

    /// These extensions with more `init(from:)` body.
    pub fn with_decodable(self, decodable: &str) -> (r: Codable)
        ensures
            r.decodable_impl@ == self.decodable_impl@ + twice(decodable@),
            r.name == self.name,
            r.encodable_impl == self.encodable_impl,
    {
        let mut this = self;
        this.decodable(decodable);
        this
    }

    /// The Swift source of these extensions.
    pub fn render(&self) -> (r: String)
        ensures
            r@ == codable_text(*self),
    {
        let mut s = String::from_str("extension ");
        s.append(self.name.as_str());
        s.append(": Decodable {\n    public init(from decoder: Decoder) throws {\n");
        s.append(self.decodable_impl.as_str());
        s.append("\n    }\n}\n\nextension ");
        s.append(self.name.as_str());
        s.append(": Encodable {\n    public func encode(to encoder: Encoder) throws {\n");
        s.append(self.encodable_impl.as_str());
        s.append("\n    }\n}\n");
        s
    }
}

} // verus!
