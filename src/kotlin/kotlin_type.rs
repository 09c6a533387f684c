//! Kotlin output for registered types.

use vstd::prelude::*;
use vstd::string::*;

use crate::case::{camel_case, screaming_snake_case};
use crate::kotlin::data_classes::{
    data_class_parts_text, field_parts_text, field_text, newtype_serializer_text,
    serializer_name_text, Field, NewTypeClass,
};
use crate::kotlin::enums::{self, enum_parts_text, variant_parts_text, variant_text};
use crate::kotlin::structs::{
    field_made_from, newtype_struct_parts_text, normal_class_parts_text, KotlinStruct,
};
use crate::kotlin::unions::{
    self, deserialize_case_parts_text, deserialize_case_text, descriptor_element_parts_text,
    descriptor_element_text, serialize_case_parts_text, serialize_case_text, union_parts_text,
    variant_class_parts_text, variant_class_text, variant_made_from, variant_ok,
};
use crate::kotlin::{default_str_text, kotlin_type_ok, kotlin_type_text, serializer_text, views};
use crate::output::OutputFormat;
use crate::registry::Type;
use crate::text::{
    concat_map, concat_map_indexed, lemma_concat_map_congruent,
    lemma_concat_map_indexed_congruent,
};
use crate::types::{self, variant_label, Alias, Enum, EnumVariant, NewType, Struct, Union, UnionRepresentation, UnionVariant};

verus! {

/// Whether Kotlin can express `ty`: every field type can be spelt, and a
/// union is externally tagged with named variants.
pub open spec fn kotlin_supports(ty: Type) -> bool {
    match ty {
        Type::Struct(s) => forall|i: int| 0 <= i < s.fields.len() ==> kotlin_type_ok(#[trigger] s.fields@[i].ty),
        Type::NewType(n) => kotlin_type_ok(n.inner),
        Type::Alias(a) => kotlin_type_ok(a.inner),
        Type::Enum(_) => true,
        Type::Union(u) => u.representation is ExternallyTagged && forall|i: int|
            0 <= i < u.variants.len() ==> variant_ok(#[trigger] u.variants@[i]),
    }
}

/// The property of a struct field.
pub open spec fn kotlin_struct_field_text(f: types::Field) -> Seq<char> {
    field_parts_text(f.serialized_name@, camel_case(f.name@), kotlin_type_text(f.ty), default_str_text(f.ty))
}

/// The constant of an enum variant.
pub open spec fn kotlin_enum_variant_text(v: EnumVariant) -> Seq<char> {
    variant_parts_text(v.serialized_name@, screaming_snake_case(v.name@))
}

/// The sealed interface, variant classes and serializer of a union.
pub open spec fn kotlin_union_text(u: Union) -> Seq<char> {
    let name = u.name@;
    union_parts_text(
        name,
        concat_map(
            u.variants@,
            |v: UnionVariant| variant_class_parts_text(
                camel_case(variant_label(v)),
                kotlin_type_text(v.ty),
                serializer_text(v.ty),
                name,
            ) + "\n"@,
        ),
        concat_map_indexed(
            u.variants@,
            |i: int, v: UnionVariant| serialize_case_parts_text(name, i, camel_case(variant_label(v))),
        ),
        concat_map_indexed(
            u.variants@,
            |i: int, v: UnionVariant| deserialize_case_parts_text(name, i, camel_case(variant_label(v))),
        ),
        concat_map(
            u.variants@,
            |v: UnionVariant| descriptor_element_parts_text(
                name,
                camel_case(variant_label(v)),
                v.serialized_name@,
            ),
        ),
    )
}

/// The Kotlin text for a registered type.
pub open spec fn kotlin_text_of(ty: Type) -> Seq<char> {
    match ty {
        Type::Struct(s) => normal_class_parts_text(
            s.name@,
            concat_map(s.fields@, |f: types::Field| kotlin_struct_field_text(f)),
        ) + "\n"@,
        Type::NewType(n) => data_class_parts_text(
            Some(serializer_name_text(n.name@) + "::class"@),
            n.name@,
            field_parts_text("value"@, "value"@, kotlin_type_text(n.inner), default_str_text(n.inner)),
            Seq::empty(),
        ) + "\n"@ + newtype_serializer_text(n.name@, serializer_text(n.inner)) + "\n"@,
        Type::Alias(a) => "typealias "@ + a.name@ + " = "@ + kotlin_type_text(a.inner) + "\n"@,
        Type::Enum(e) => enum_parts_text(
            e.name@,
            concat_map(e.variants@, |v: EnumVariant| kotlin_enum_variant_text(v)),
        ) + "\n"@,
        Type::Union(u) => kotlin_union_text(u) + "\n"@,
    }
}

/// A registered type to be written out as Kotlin.
pub enum KotlinType<'a> {
    /// A struct.
    Struct(&'a Struct),
    /// A newtype.
    NewType(&'a NewType),
    /// A type alias.
    Alias(&'a Alias),
    /// A data-less enum.
    Enum(&'a Enum),
    /// A union.
    Union(&'a Union),
}

fn fields_supported(fields: &Vec<types::Field>) -> (r: bool)
    ensures
        r == forall|i: int| 0 <= i < fields.len() ==> kotlin_type_ok(#[trigger] fields@[i].ty),
{
    let mut i: usize = 0;
    while i < fields.len()
        invariant
            i <= fields.len(),
            forall|k: int| 0 <= k < i ==> kotlin_type_ok(#[trigger] fields@[k].ty),
        decreases fields.len() - i,
    {
        if !fields[i].ty.kotlin_supported() {
            return false;
        }
        i = i + 1;
    }
    true
}

fn union_supported(u: &Union) -> (r: bool)
    ensures
        r == kotlin_supports(Type::Union(*u)),
{
    match u.representation {
        UnionRepresentation::ExternallyTagged => {},
        _ => return false,
    }
    let mut i: usize = 0;
    while i < u.variants.len()
        invariant
            i <= u.variants.len(),
            u.representation is ExternallyTagged,
            forall|k: int| 0 <= k < i ==> variant_ok(#[trigger] u.variants@[k]),
        decreases u.variants.len() - i,
    {
        let v = &u.variants[i];
        if !v.labelled() || !v.ty.kotlin_supported() {
            return false;
        }
        i = i + 1;
    }
    true
}

fn render_struct(details: &Struct) -> (r: String)
    requires
        kotlin_supports(Type::Struct(*details)),
    ensures
        r@ == kotlin_text_of(Type::Struct(*details)),
{
    let k = KotlinStruct::new(details.name.as_str()).with_fields(&details.fields);
    let mut s = k.render();
    proof {
        if let KotlinStruct::Normal(c) = k {
            assert(c.fields@.len() == details.fields@.len());
            assert forall|i: int| 0 <= i < c.fields@.len() implies field_text(#[trigger] c.fields@[i])
                == kotlin_struct_field_text(details.fields@[i]) by {
                assert(field_made_from(c.fields@[0 + i], details.fields@[i]));
            }
            lemma_concat_map_congruent(
                c.fields@,
                |f: Field| field_text(f),
                details.fields@,
                |f: types::Field| kotlin_struct_field_text(f),
            );
        }
    }
    s.append("\n");
    s
}

fn render_newtype(details: &NewType) -> (r: String)
    requires
        kotlin_type_ok(details.inner),
    ensures
        r@ == kotlin_text_of(Type::NewType(*details)),
{
    let class = NewTypeClass::new(
        details.name.as_str(),
        details.inner.kotlin_type(),
        details.inner.serializer(),
    ).with_default_string(details.inner.default_str());
    let mut s = class.render();
    proof {
        let d = class.dataclass;
        assert(d.fields@.drop_last() =~= Seq::<Field>::empty());
        assert(concat_map(d.fields@.drop_last(), |f: Field| field_text(f)) =~= Seq::<char>::empty());
        assert(d.fields@.last() == d.fields@[0]);
        assert(concat_map(d.fields@, |f: Field| field_text(f)) =~= field_parts_text(
            "value"@,
            "value"@,
            kotlin_type_text(details.inner),
            default_str_text(details.inner),
        ));
        assert(views(d.inherits@) =~= Seq::<Seq<char>>::empty());
    }
    s.append("\n");
    s
}

fn render_alias(details: &Alias) -> (r: String)
    requires
        kotlin_type_ok(details.inner),
    ensures
        r@ == kotlin_text_of(Type::Alias(*details)),
{
    let mut s = String::from_str("typealias ");
    s.append(details.name.as_str());
    s.append(" = ");
    s.append(details.inner.kotlin_type().as_str());
    s.append("\n");
    s
}

fn render_enum(details: &Enum) -> (r: String)
    ensures
        r@ == kotlin_text_of(Type::Enum(*details)),
{
    let e = enums::Enum::new(details.name.as_str()).with_variants(&details.variants);
    let mut s = e.render();
    proof {
        assert forall|i: int| 0 <= i < e.variants@.len() implies variant_text(#[trigger] e.variants@[i])
            == kotlin_enum_variant_text(details.variants@[i]) by {
            assert(enums::made_from(e.variants@[0 + i], details.variants@[i]));
        }
        lemma_concat_map_congruent(
            e.variants@,
            |v: enums::Variant| variant_text(v),
            details.variants@,
            |v: EnumVariant| kotlin_enum_variant_text(v),
        );
    }
    s.append("\n");
    s
}

fn render_union(details: &Union) -> (r: String)
    requires
        kotlin_supports(Type::Union(*details)),
    ensures
        r@ == kotlin_text_of(Type::Union(*details)),
{
    let u = unions::Union::new(details.name.as_str(), details.representation.duplicate())
        .with_variants(&details.variants);
    let mut s = u.render();
    proof {
        let name = details.name@;
        let vs = u.variants@;
        let ws = details.variants@;
        assert forall|i: int| 0 <= i < vs.len() implies #[trigger] vs[i].name@ == camel_case(variant_label(ws[i]))
            && vs[i].ty@ == kotlin_type_text(ws[i].ty) && vs[i].inner_serializer@ == serializer_text(ws[i].ty)
            && vs[i].serde_name@ == ws[i].serialized_name@ by {
            assert(variant_made_from(vs[0 + i], ws[i]));
        }
        lemma_concat_map_congruent(
            vs,
            |v: unions::Variant| variant_class_text(v, name) + "\n"@,
            ws,
            |v: UnionVariant| variant_class_parts_text(
                camel_case(variant_label(v)),
                kotlin_type_text(v.ty),
                serializer_text(v.ty),
                name,
            ) + "\n"@,
        );
        lemma_concat_map_indexed_congruent(
            vs,
            |i: int, v: unions::Variant| serialize_case_text(name, i, v),
            ws,
            |i: int, v: UnionVariant| serialize_case_parts_text(name, i, camel_case(variant_label(v))),
        );
        lemma_concat_map_indexed_congruent(
            vs,
            |i: int, v: unions::Variant| deserialize_case_text(name, i, v),
            ws,
            |i: int, v: UnionVariant| deserialize_case_parts_text(name, i, camel_case(variant_label(v))),
        );
        lemma_concat_map_congruent(
            vs,
            |v: unions::Variant| descriptor_element_text(name, v),
            ws,
            |v: UnionVariant| descriptor_element_parts_text(
                name,
                camel_case(variant_label(v)),
                v.serialized_name@,
            ),
        );
    }
    s.append("\n");
    s
}

impl<'a> KotlinType<'a> {
    /// The type this stands for.
    pub open spec fn ty(&self) -> Type {
        match *self {
            KotlinType::Struct(s) => Type::Struct(*s),
            KotlinType::NewType(n) => Type::NewType(*n),
            KotlinType::Alias(a) => Type::Alias(*a),
            KotlinType::Enum(e) => Type::Enum(*e),
            KotlinType::Union(u) => Type::Union(*u),
        }
    }

    /// Views a registered type as Kotlin output.
    pub fn from_type(ty: &'a Type) -> (r: KotlinType<'a>)
        ensures
            r.ty() == *ty,
    {
        match ty {
            Type::Struct(inner) => KotlinType::Struct(inner),
            Type::Enum(inner) => KotlinType::Enum(inner),
            Type::Union(inner) => KotlinType::Union(inner),
            Type::NewType(inner) => KotlinType::NewType(inner),
            Type::Alias(inner) => KotlinType::Alias(inner),
        }
    }

    /// The Kotlin source for this type, or `None` where Kotlin output does
    /// not support it (time values; unions that are not externally tagged or
    /// have unnamed variants).
    pub fn render(&self) -> (r: Option<String>)
        ensures
            r is Some <==> kotlin_supports(self.ty()),
            r matches Some(t) ==> t@ == kotlin_text_of(self.ty()),
    {
        match self {
            KotlinType::Struct(details) => {
                if fields_supported(&details.fields) {
                    Some(render_struct(details))
                } else {
                    None
                }
            },
            KotlinType::NewType(details) => {
                if details.inner.kotlin_supported() {
                    Some(render_newtype(details))
                } else {
                    None
                }
            },
            KotlinType::Alias(details) => {
                if details.inner.kotlin_supported() {
                    Some(render_alias(details))
                } else {
                    None
                }
            },
            KotlinType::Enum(details) => Some(render_enum(details)),
            KotlinType::Union(details) => {
                if union_supported(details) {
                    Some(render_union(details))
                } else {
                    None
                }
            },
        }
    }
}

impl<'a> OutputFormat for KotlinType<'a> {
    open spec fn supports(ty: Type) -> bool {
        kotlin_supports(ty)
    }

    open spec fn text_of(ty: Type) -> Seq<char> {
        kotlin_text_of(ty)
    }

    fn supports_type(ty: &Type) -> (r: bool) {
        match ty {
            Type::Struct(s) => fields_supported(&s.fields),
            Type::NewType(n) => n.inner.kotlin_supported(),
            Type::Alias(a) => a.inner.kotlin_supported(),
            Type::Enum(_) => true,
            Type::Union(u) => union_supported(u),
        }
    }

    fn render_type(ty: &Type) -> (r: String) {
        match ty {
            Type::Struct(details) => render_struct(details),
            Type::NewType(details) => render_newtype(details),
            Type::Alias(details) => render_alias(details),
            Type::Enum(details) => render_enum(details),
            Type::Union(details) => render_union(details),
        }
    }
}

} // verus!
