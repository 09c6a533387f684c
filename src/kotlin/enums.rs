//! Kotlin enum classes.

use vstd::prelude::*;
use vstd::string::*;

use crate::case::{screaming_snake_case, to_screaming_snake_case};
use crate::text::{concat_each, concat_map, indented, indent_text};
use crate::types;

verus! {

/// An enum constant and its wire name.
#[derive(Debug)]
pub struct Variant {
    /// The constant, in SCREAMING_SNAKE_CASE.
    pub name: String,
    /// The wire name.
    pub serde_name: String,
}

/// A Kotlin enum class.
#[derive(Debug)]
pub struct Enum {
    /// The class name.
    pub name: String,
    /// The constants.
    pub variants: Vec<Variant>,
}

/// The constant made of an enum variant.
pub open spec fn made_from(v: Variant, from: types::EnumVariant) -> bool {
    v.name@ == screaming_snake_case(from.name@) && v.serde_name@ == from.serialized_name@
}

/// A constant with its wire name.
pub open spec fn variant_text(v: Variant) -> Seq<char> {
    variant_parts_text(v.serde_name@, v.name@)
}

/// A constant made of these parts.
pub open spec fn variant_parts_text(serde_name: Seq<char>, name: Seq<char>) -> Seq<char> {
    "@SerialName(\""@ + serde_name + "\") "@ + name + ",\n"@
}

/// The Kotlin source of an enum class.
pub open spec fn enum_text(e: Enum) -> Seq<char> {
    enum_parts_text(e.name@, concat_map(e.variants@, |v: Variant| variant_text(v)))
}

/// An enum class with these constants.
pub open spec fn enum_parts_text(name: Seq<char>, variants: Seq<char>) -> Seq<char> {
    "@Serializable\npublic enum class "@ + name + " {\n"@ + indent_text(variants, "    "@, true)
        + "}\n\n"@
}

fn render_variant(v: &Variant) -> (r: String)
    ensures
        r@ == variant_text(*v),
{
    let mut s = String::from_str("@SerialName(\"");
    s.append(v.serde_name.as_str());
    s.append("\") ");
    s.append(v.name.as_str());
    s.append(",\n");
    s
}

impl Enum {
    /// An enum class without constants.
    pub fn new(name: &str) -> (r: Enum)
        ensures
            r.name@ == name@,
            r.variants@.len() == 0,
    {
        Enum { name: name.to_string(), variants: Vec::new() }
    }

    /// This enum with one constant added per variant.
    pub fn with_variants(self, fields: &Vec<types::EnumVariant>) -> (r: Enum)
        ensures
            r.name == self.name,
            r.variants@.len() == self.variants@.len() + fields@.len(),
            forall|i: int| 0 <= i < self.variants@.len() ==> r.variants@[i] == self.variants@[i],
            forall|j: int|
                0 <= j < fields@.len() ==> made_from(
                    #[trigger] r.variants@[self.variants@.len() + j],
                    fields@[j],
                ),
    {
        let mut this = self;
        let ghost n = self.variants@.len();
        let mut i: usize = 0;
        while i < fields.len()
            invariant
                i <= fields.len(),
                n == self.variants@.len(),
                this.name == self.name,
                this.variants@.len() == n + i,
                forall|k: int| 0 <= k < n ==> this.variants@[k] == self.variants@[k],
                forall|j: int| 0 <= j < i ==> made_from(#[trigger] this.variants@[n + j], fields@[j]),
            decreases fields.len() - i,
        {
            let f = &fields[i];
            this.variants.push(
                Variant {
                    name: to_screaming_snake_case(f.name.as_str()),
                    serde_name: f.serialized_name.clone(),
                },
            );
            assert(made_from(this.variants@[n + i], fields@[i as int]));
            i = i + 1;
        }
        this
    }

    /// The Kotlin source of this enum class.
    pub fn render(&self) -> (r: String)
        ensures
            r@ == enum_text(*self),
    {
        let body = concat_each(&self.variants, render_variant, Ghost(|v: Variant| variant_text(v)));
        let mut s = String::from_str("@Serializable\npublic enum class ");
        s.append(self.name.as_str());
        s.append(" {\n");
        s.append(indented(body.as_str(), "    ").as_str());
        s.append("}\n\n");
        s
    }
}

} // verus!
