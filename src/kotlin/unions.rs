//! Kotlin sealed interfaces for unions, with one newtype class per variant
//! and a serializer for the union's representation.

use vstd::prelude::*;
use vstd::string::*;

use crate::case::{camel_case, to_camel_case};
use crate::kotlin::data_classes::{
    data_class_parts_text, field_parts_text, field_text, newtype_class_text,
    newtype_serializer_text, serializer_name_text, Field, NewTypeClass,
};
use crate::kotlin::kserializer::{kserializer_parts_text, kserializer_text, once, twice, KSerializer};
use crate::kotlin::{kotlin_type_ok, kotlin_type_text, serializer_text, views};
use crate::text::{
    concat_each_indexed_with, concat_each_with, concat_map, concat_map_indexed, decimal,
    decimal_text, indented, indent_text, join,
};
use crate::types::{self, has_label, variant_label, UnionRepresentation};

verus! {

/// A union variant as Kotlin sees it.
#[derive(Debug)]
pub struct Variant {
    /// The class name, in camelCase.
    pub name: String,
    /// The Kotlin type of the payload.
    pub ty: String,
    /// The serializer expression of the payload.
    pub inner_serializer: String,
    /// The wire name.
    pub serde_name: String,
}

/// A Kotlin sealed interface for a union.
#[derive(Debug)]
pub struct Union {
    /// The interface name.
    pub name: String,
    /// The variants.
    pub variants: Vec<Variant>,
    /// How the union is represented on the wire.
    pub representation: UnionRepresentation,
}

/// Whether Kotlin can express a union variant: it has a label and its type
/// can be spelt.
pub open spec fn variant_ok(v: types::UnionVariant) -> bool {
    has_label(v) && kotlin_type_ok(v.ty)
}

/// The Kotlin variant made of a union variant.
pub open spec fn variant_made_from(v: Variant, from: types::UnionVariant) -> bool {
    &&& v.name@ == camel_case(variant_label(from))
    &&& v.ty@ == kotlin_type_text(from.ty)
    &&& v.inner_serializer@ == serializer_text(from.ty)
    &&& v.serde_name@ == from.serialized_name@
}

/// The newtype class of a variant, a subtype of the union's interface.
pub open spec fn variant_class_text(v: Variant, enum_name: Seq<char>) -> Seq<char> {
    variant_class_parts_text(v.name@, v.ty@, v.inner_serializer@, enum_name)
}

/// A variant class made of these parts.
pub open spec fn variant_class_parts_text(
    name: Seq<char>,
    ty: Seq<char>,
    inner_serializer: Seq<char>,
    enum_name: Seq<char>,
) -> Seq<char> {
    data_class_parts_text(
        Some(serializer_name_text(name) + "::class"@),
        name,
        field_parts_text("value"@, "value"@, ty, ""@),
        seq![enum_name],
    ) + "\n"@ + newtype_serializer_text(name, inner_serializer)
}

/// How `serialize` writes one variant.
pub open spec fn serialize_case_text(name: Seq<char>, i: int, v: Variant) -> Seq<char> {
    serialize_case_parts_text(name, i, v.name@)
}

/// How `serialize` writes the variant at index `i`.
pub open spec fn serialize_case_parts_text(name: Seq<char>, i: int, variant: Seq<char>) -> Seq<char> {
    let class = name + "."@ + variant;
    "is "@ + class + " ->\n    composite.encodeSerializableElement(descriptor, "@ + decimal_text(
        i as nat,
    ) + ", "@ + class + ".serializer(), value as "@ + class + ")\n"@
}

/// How `deserialize` reads one variant.
pub open spec fn deserialize_case_text(name: Seq<char>, i: int, v: Variant) -> Seq<char> {
    deserialize_case_parts_text(name, i, v.name@)
}

/// How `deserialize` reads the variant at index `i`.
pub open spec fn deserialize_case_parts_text(name: Seq<char>, i: int, variant: Seq<char>) -> Seq<char> {
    decimal_text(i as nat) + " -> composite.decodeSerializableElement(descriptor, "@
        + decimal_text(i as nat) + ", "@ + name + "."@ + variant + ".serializer())\n"@
}

/// The descriptor element of one variant.
pub open spec fn descriptor_element_text(name: Seq<char>, v: Variant) -> Seq<char> {
    descriptor_element_parts_text(name, v.name@, v.serde_name@)
}

/// The descriptor element of a variant and its wire name.
pub open spec fn descriptor_element_parts_text(
    name: Seq<char>,
    variant: Seq<char>,
    serde_name: Seq<char>,
) -> Seq<char> {
    "element<"@ + name + "."@ + variant + ">(\""@ + serde_name + "\", isOptional = true)\n"@
}

/// The union's interface, its variant classes and a serializer for the
/// externally tagged representation: each variant is an element at its own
/// index, named by its wire name.
pub open spec fn union_parts_text(
    name: Seq<char>,
    classes: Seq<char>,
    serialize_cases: Seq<char>,
    deserialize_cases: Seq<char>,
    elements: Seq<char>,
) -> Seq<char> {
    "@Serializable(with = "@ + name + "Serializer::class)\nsealed interface "@ + name + " {\n"@
        + once(classes) + "}\n"@ + kserializer_parts_text(
        name + "Serializer"@,
        name,
        Seq::empty(),
        "buildClassSerialDescriptor(\""@ + name + "\") {\n"@ + once(elements) + "};\n\n"@,
        twice(
            "val composite = encoder.beginStructure(descriptor)\nwhen(value) {\n"@ + once(
                serialize_cases,
            ) + "}\ncomposite.endStructure(descriptor)\n"@,
        ),
        twice(
            "val composite = decoder.beginStructure(descriptor)\nval rv = when (val index = composite.decodeElementIndex(descriptor)) {\n"@
                + once(deserialize_cases) + once("else -> error(\"Unexpected input\")\n"@)
                + "}\ncomposite.endStructure(descriptor)\nreturn rv\n"@,
        ),
    ) + "\n"@
}

/// The Kotlin source of a union.
pub open spec fn union_text(name: Seq<char>, vs: Seq<Variant>) -> Seq<char> {
    union_parts_text(
        name,
        concat_map(vs, |v: Variant| variant_class_text(v, name) + "\n"@),
        concat_map_indexed(vs, |i: int, v: Variant| serialize_case_text(name, i, v)),
        concat_map_indexed(vs, |i: int, v: Variant| deserialize_case_text(name, i, v)),
        concat_map(vs, |v: Variant| descriptor_element_text(name, v)),
    )
}

impl Variant {
    /// The Kotlin view of a named union variant.
    pub fn from_variant(val: &types::UnionVariant) -> (r: Variant)
        requires
            variant_ok(*val),
        ensures
            variant_made_from(r, *val),
    {
        let name = to_camel_case(val.label().as_str());
        Variant {
            name,
            inner_serializer: val.ty.serializer(),
            ty: val.ty.kotlin_type(),
            serde_name: val.serialized_name.clone(),
        }
    }

    /// The newtype class of this variant, implementing `enum_class`.
    pub fn newtype(&self, enum_class: &str) -> (r: NewTypeClass)
        ensures
            newtype_class_text(r) == variant_class_text(*self, enum_class@),
    {
        let r = NewTypeClass::new(self.name.as_str(), self.ty.clone(), self.inner_serializer.clone())
            .with_inheritance(enum_class);
        proof {
            let d = r.dataclass;
            assert(d.fields@.drop_last() =~= Seq::<Field>::empty());
            assert(concat_map(d.fields@.drop_last(), |f: Field| field_text(f)) =~= Seq::<char>::empty());
            assert(d.fields@.last() == d.fields@[0]);
            assert(d.fields@[0].ty@ == self.ty@);
            assert(concat_map(d.fields@, |f: Field| field_text(f)) =~= field_parts_text(
                "value"@,
                "value"@,
                self.ty@,
                ""@,
            ));
            assert(views(d.inherits@) =~= seq![enum_class@]);
        }
        r
    }
}

fn variant_class(name: &String, v: &Variant) -> (r: String)
    ensures
        r@ == variant_class_text(*v, name@) + "\n"@,
{
    let mut s = v.newtype(name.as_str()).render();
    s.append("\n");
    s
}

fn serialize_case(name: &String, i: usize, v: &Variant) -> (r: String)
    ensures
        r@ == serialize_case_text(name@, i as int, *v),
{
    let mut class = name.clone();
    class.append(".");
    class.append(v.name.as_str());
    let mut s = String::from_str("is ");
    s.append(class.as_str());
    s.append(" ->\n    composite.encodeSerializableElement(descriptor, ");
    s.append(decimal(i).as_str());
    s.append(", ");
    s.append(class.as_str());
    s.append(".serializer(), value as ");
    s.append(class.as_str());
    s.append(")\n");
    s
}

fn deserialize_case(name: &String, i: usize, v: &Variant) -> (r: String)
    ensures
        r@ == deserialize_case_text(name@, i as int, *v),
{
    let mut s = decimal(i);
    s.append(" -> composite.decodeSerializableElement(descriptor, ");
    s.append(decimal(i).as_str());
    s.append(", ");
    s.append(name.as_str());
    s.append(".");
    s.append(v.name.as_str());
    s.append(".serializer())\n");
    s
}

fn descriptor_element(name: &String, v: &Variant) -> (r: String)
    ensures
        r@ == descriptor_element_text(name@, *v),
{
    let mut s = String::from_str("element<");
    s.append(name.as_str());
    s.append(".");
    s.append(v.name.as_str());
    s.append(">(\"");
    s.append(v.serde_name.as_str());
    s.append("\", isOptional = true)\n");
    s
}

impl Union {
    /// A union interface without variants.
    pub fn new(name: &str, representation: UnionRepresentation) -> (r: Union)
        ensures
            r.name@ == name@,
            r.variants@.len() == 0,
            r.representation == representation,
    {
        Union { name: name.to_string(), variants: Vec::new(), representation }
    }

    /// This union with one class added per variant.
    pub fn with_variants(self, fields: &Vec<types::UnionVariant>) -> (r: Union)
        requires
            forall|j: int| 0 <= j < fields@.len() ==> variant_ok(#[trigger] fields@[j]),
        ensures
            r.name == self.name,
            r.representation == self.representation,
            r.variants@.len() == self.variants@.len() + fields@.len(),
            forall|i: int| 0 <= i < self.variants@.len() ==> r.variants@[i] == self.variants@[i],
            forall|j: int|
                0 <= j < fields@.len() ==> variant_made_from(
                    #[trigger] r.variants@[self.variants@.len() + j],
                    fields@[j],
                ),
    {
        let mut this = self;
        let ghost n = self.variants@.len();
        let mut i: usize = 0;
        while i < fields.len()
            invariant
                i <= fields.len(),
                n == self.variants@.len(),
                forall|j: int| 0 <= j < fields@.len() ==> variant_ok(#[trigger] fields@[j]),
                this.name == self.name,
                this.representation == self.representation,
                this.variants@.len() == n + i,
                forall|k: int| 0 <= k < n ==> this.variants@[k] == self.variants@[k],
                forall|j: int| 0 <= j < i ==> variant_made_from(#[trigger] this.variants@[n + j], fields@[j]),
            decreases fields.len() - i,
        {
            this.variants.push(Variant::from_variant(&fields[i]));
            assert(variant_made_from(this.variants@[n + i], fields@[i as int]));
            i = i + 1;
        }
        this
    }

    /// The Kotlin source of this union; only the externally tagged
    /// representation is supported.
    pub fn render(&self) -> (r: String)
        requires
            self.representation is ExternallyTagged,
        ensures
            r@ == union_text(self.name@, self.variants@),
    {
        let name = &self.name;
        let mut s = String::from_str("@Serializable(with = ");
        s.append(name.as_str());
        s.append("Serializer::class)\nsealed interface ");
        s.append(name.as_str());
        s.append(" {\n");
        let classes = concat_each_with(
            name,
            &self.variants,
            variant_class,
            Ghost(|n: String, v: Variant| variant_class_text(v, n@) + "\n"@),
        );
        assert((|a: Variant| (|n: String, v: Variant| variant_class_text(v, n@) + "\n"@)(*name, a))
            =~= (|v: Variant| variant_class_text(v, name@) + "\n"@));
        s.append(indented(classes.as_str(), "    ").as_str());
        s.append("}\n");

        let cases = concat_each_indexed_with(
            name,
            &self.variants,
            serialize_case,
            Ghost(|n: String, i: int, v: Variant| serialize_case_text(n@, i, v)),
        );
        assert((|i: int, a: Variant| (|n: String, i: int, v: Variant| serialize_case_text(n@, i, v))(*name, i, a))
            =~= (|i: int, v: Variant| serialize_case_text(name@, i, v)));
        let mut serialize = String::from_str("val composite = encoder.beginStructure(descriptor)\nwhen(value) {\n");
        serialize.append(indented(cases.as_str(), "    ").as_str());
        serialize.append("}\ncomposite.endStructure(descriptor)\n");

        let cases = concat_each_indexed_with(
            name,
            &self.variants,
            deserialize_case,
            Ghost(|n: String, i: int, v: Variant| deserialize_case_text(n@, i, v)),
        );
        assert((|i: int, a: Variant| (|n: String, i: int, v: Variant| deserialize_case_text(n@, i, v))(*name, i, a))
            =~= (|i: int, v: Variant| deserialize_case_text(name@, i, v)));
        let mut deserialize = String::from_str(
            "val composite = decoder.beginStructure(descriptor)\nval rv = when (val index = composite.decodeElementIndex(descriptor)) {\n",
        );
        deserialize.append(indented(cases.as_str(), "    ").as_str());
        deserialize.append(indented("else -> error(\"Unexpected input\")\n", "    ").as_str());
        deserialize.append("}\ncomposite.endStructure(descriptor)\nreturn rv\n");

        let elements = concat_each_with(
            name,
            &self.variants,
            descriptor_element,
            Ghost(|n: String, v: Variant| descriptor_element_text(n@, v)),
        );
        assert((|a: Variant| (|n: String, v: Variant| descriptor_element_text(n@, v))(*name, a))
            =~= (|v: Variant| descriptor_element_text(name@, v)));
        let mut descriptor = String::from_str("buildClassSerialDescriptor(\"");
        descriptor.append(name.as_str());
        descriptor.append("\") {\n");
        descriptor.append(indented(elements.as_str(), "    ").as_str());
        descriptor.append("};\n\n");

        let serializer = KSerializer::new(name.as_str())
            .with_serialize_body(serialize.as_str())
            .with_deserialize_body(deserialize.as_str())
            .with_descriptor(descriptor.as_str());
        s.append(serializer.render().as_str());
        s.append("\n");
        s
    }
}

} // verus!
