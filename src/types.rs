//! The type model: a set of structs that describe types and can be used to
//! generate copies of them in other languages.

use vstd::prelude::*;

verus! {

/// A struct, serialized as a JSON object.
#[derive(Debug)]
pub struct Struct {
    /// The name of the struct.
    pub name: String,
    /// The struct's fields.
    pub fields: Vec<Field>,
}

/// A field within a struct.
#[derive(Debug)]
pub struct Field {
    /// The name of the field in the model.
    pub name: String,
    /// The name of the field when serialized.
    pub serialized_name: String,
    /// The type of the field.
    pub ty: FieldType,
}

/// A newtype struct, represented on the wire by its inner value.
#[derive(Debug)]
pub struct NewType {
    /// The name of the newtype.
    pub name: String,
    /// The type contained within the newtype.
    pub inner: FieldType,
}

/// A type alias: a second name for a shape.
#[derive(Debug)]
pub struct Alias {
    /// The name of the alias.
    pub name: String,
    /// The type that is being aliased.
    pub inner: FieldType,
}

/// An enum whose variants carry no data; serialized as a string.
#[derive(Debug)]
pub struct Enum {
    /// The name of the enum.
    pub name: String,
    /// The enum's variants.
    pub variants: Vec<EnumVariant>,
}

/// A variant of a data-less enum.
#[derive(Debug)]
pub struct EnumVariant {
    /// The name of the variant in code.
    pub name: String,
    /// The name of the variant when serialized.
    pub serialized_name: String,
}

/// A union: an enum whose variants carry data.
#[derive(Debug)]
pub struct Union {
    /// The name of the union.
    pub name: String,
    /// How the union is represented on the wire.
    pub representation: UnionRepresentation,
    /// The union's variants.
    pub variants: Vec<UnionVariant>,
}

/// A variant of a union.
#[derive(Debug)]
pub struct UnionVariant {
    /// The name of the variant, if any.
    pub name: Option<String>,
    /// The type inside the variant.
    pub ty: FieldType,
    /// The name the variant is serialized as.
    pub serialized_name: String,
}

/// The wire representation of a union.
#[derive(Debug)]
pub enum UnionRepresentation {
    /// `{tag: <variant>, content: <payload>}`
    AdjacentlyTagged {
        /// The name of the tag field.
        tag: String,
        /// The name of the content field.
        content: String,
    },
    /// `{tag: <variant>, ...payload fields}`
    InternallyTagged {
        /// The name of the tag field.
        tag: String,
    },
    /// `{<variant>: <payload>}`
    ExternallyTagged,
    /// `<payload>`
    Untagged,
}

/// The type of a field.
#[derive(Debug)]
pub enum FieldType {
    /// An optional value.
    Optional(Box<FieldType>),
    /// A list of values.
    List(Box<FieldType>),
    /// A map from keys to values.
    Dictionary {
        /// The type of the keys.
        key: Box<FieldType>,
        /// The type of the values.
        value: Box<FieldType>,
    },
    /// A value of a named type.
    Named(TypeRef),
    /// A value of a primitive type.
    Primitive(Primitive),
}

/// The primitive types.
#[derive(Debug, Clone, Copy, PartialEq, Eq, Structural)]
pub enum Primitive {
    /// Strings
    String,
    /// Floating point numbers
    Float,
    /// Integers
    Int,
    /// Booleans
    Bool,
    /// Points in time
    Time,
}

/// A reference to a named type: a name for rendering, not an owner of the
/// referenced entry.
#[derive(Debug)]
pub struct TypeRef {
    pub name: String,
}

impl TypeRef {
    /// Makes a reference to the type with the given name.
    pub fn new(name: &str) -> (r: TypeRef)
        ensures
            r.name@ == name@,
    {
        TypeRef { name: name.to_string() }
    }

    /// The name of the referenced type.
    pub fn name(&self) -> (r: &str)
        ensures
            r@ == self.name@,
    {
        self.name.as_str()
    }
}

/// Whether a union variant has a label: its own name, or else the name of
/// the named type it holds.
pub open spec fn has_label(v: UnionVariant) -> bool {
    v.name is Some || v.ty is Named
}

/// The label of a union variant: its own name, or else the name of the named
/// type it holds.
pub open spec fn variant_label(v: UnionVariant) -> Seq<char> {
    match v.name {
        Some(n) => n@,
        None => match v.ty {
            FieldType::Named(r) => r.name@,
            _ => Seq::empty(),
        },
    }
}

impl UnionVariant {
    /// The label of this variant: its own name, or else the name of the
    /// named type it holds.
    pub fn label(&self) -> (r: String)
        requires
            has_label(*self),
        ensures
            r@ == variant_label(*self),
    {
        match &self.name {
            Some(n) => n.clone(),
            None => match &self.ty {
                FieldType::Named(r) => r.name.clone(),
                _ => String::new(),
            },
        }
    }

    /// Whether this variant has a label.
    pub fn labelled(&self) -> (r: bool)
        ensures
            r == has_label(*self),
    {
        match &self.name {
            Some(_) => true,
            None => match &self.ty {
                FieldType::Named(_) => true,
                _ => false,
            },
        }
    }
}

impl UnionRepresentation {
    /// A copy of this representation.
    pub fn duplicate(&self) -> (r: UnionRepresentation)
        ensures
            r == *self,
    {
        match self {
            UnionRepresentation::AdjacentlyTagged { tag, content } => {
                UnionRepresentation::AdjacentlyTagged { tag: tag.clone(), content: content.clone() }
            },
            UnionRepresentation::InternallyTagged { tag } => {
                UnionRepresentation::InternallyTagged { tag: tag.clone() }
            },
            UnionRepresentation::ExternallyTagged => UnionRepresentation::ExternallyTagged,
            UnionRepresentation::Untagged => UnionRepresentation::Untagged,
        }
    }
}

} // verus!
