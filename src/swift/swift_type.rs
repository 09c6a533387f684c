//! Swift output for registered types.

use vstd::prelude::*;
use vstd::string::*;

use crate::case::camel_case;
use crate::output::OutputFormat;
use crate::registry::Type;
use crate::swift::coding_keys::coding_key_parts_text;
use crate::swift::enums::{self, enum_parts_text, variant_text};
use crate::swift::structs::{
    assign_parts_text, decl_parts_text, field_made_from, param_parts_text, struct_parts_text,
    StructField, SwiftStruct,
};
use crate::swift::unions::{
    self, case_parts_text, decode_case_parts_text, encode_case_parts_text, representation_ok,
    union_parts_text, variant_made_from, variant_ok,
};
use crate::swift::{swift_type_ok, swift_type_text};
use crate::text::{concat_map, lemma_concat_map_congruent};
use crate::types::{self, variant_label, Alias, Enum, EnumVariant, NewType, Struct, Union, UnionVariant};

verus! {

/// Whether Swift can express `ty`: every field type can be spelt, and a
/// union is adjacently or externally tagged with named variants.
pub open spec fn swift_supports(ty: Type) -> bool {
    match ty {
        Type::Struct(s) => forall|i: int| 0 <= i < s.fields.len() ==> swift_type_ok(#[trigger] s.fields@[i].ty),
        Type::NewType(n) => swift_type_ok(n.inner),
        Type::Alias(a) => swift_type_ok(a.inner),
        Type::Enum(_) => true,
        Type::Union(u) => representation_ok(u.representation) && forall|i: int|
            0 <= i < u.variants.len() ==> variant_ok(#[trigger] u.variants@[i]),
    }
}

/// The Swift struct for a struct.
pub open spec fn swift_struct_text(s: Struct) -> Seq<char> {
    let fs = s.fields@;
    struct_parts_text(
        s.name@,
        false,
        concat_map(fs, |f: types::Field| decl_parts_text(camel_case(f.name@), swift_type_text(f.ty))),
        fs.map_values(|f: types::Field| param_parts_text(camel_case(f.name@), swift_type_text(f.ty))),
        concat_map(fs, |f: types::Field| assign_parts_text(camel_case(f.name@))),
        concat_map(fs, |f: types::Field| coding_key_parts_text(camel_case(f.name@), f.serialized_name@)),
        if fs.len() > 0 {
            camel_case(fs[0].name@)
        } else {
            Seq::empty()
        },
        if fs.len() > 0 {
            swift_type_text(fs[0].ty)
        } else {
            Seq::empty()
        },
    )
}

/// The Swift wrapper struct for a newtype.
pub open spec fn swift_newtype_text(n: NewType) -> Seq<char> {
    let ty = swift_type_text(n.inner);
    struct_parts_text(
        n.name@,
        true,
        decl_parts_text("value"@, ty),
        seq![param_parts_text("value"@, ty)],
        assign_parts_text("value"@),
        coding_key_parts_text("value"@, ""@),
        "value"@,
        ty,
    )
}

/// The Swift enum for a union, with its coding.
pub open spec fn swift_union_text(u: Union) -> Seq<char> {
    let vs = u.variants@;
    union_parts_text(
        u.representation,
        u.name@,
        concat_map(vs, |v: UnionVariant| case_parts_text(camel_case(variant_label(v)), swift_type_text(v.ty))),
        concat_map(vs, |v: UnionVariant| coding_key_parts_text(camel_case(variant_label(v)), v.serialized_name@)),
        concat_map(vs, |v: UnionVariant| encode_case_parts_text(u.representation, u.name@, camel_case(variant_label(v)))),
        concat_map(vs, |v: UnionVariant| decode_case_parts_text(u.representation, camel_case(variant_label(v)), swift_type_text(v.ty))),
    )
}

/// The Swift text for a registered type.
pub open spec fn swift_text_of(ty: Type) -> Seq<char> {
    match ty {
        Type::Struct(s) => swift_struct_text(s) + "\n"@,
        Type::NewType(n) => swift_newtype_text(n) + "\n"@,
        Type::Alias(a) => "typealias "@ + a.name@ + " = "@ + swift_type_text(a.inner) + "\n"@,
        Type::Enum(e) => enum_parts_text(
            e.name@,
            concat_map(e.variants@, |v: EnumVariant| coding_key_parts_text(camel_case(v.name@), v.serialized_name@)),
        ) + "\n"@,
        Type::Union(u) => swift_union_text(u) + "\n"@,
    }
}

fn fields_supported(fields: &Vec<types::Field>) -> (r: bool)
    ensures
        r == forall|i: int| 0 <= i < fields.len() ==> swift_type_ok(#[trigger] fields@[i].ty),
{
    let mut i: usize = 0;
    while i < fields.len()
        invariant
            i <= fields.len(),
            forall|k: int| 0 <= k < i ==> swift_type_ok(#[trigger] fields@[k].ty),
        decreases fields.len() - i,
    {
        if !fields[i].ty.swift_supported() {
            return false;
        }
        i = i + 1;
    }
    true
}

fn union_supported(u: &Union) -> (r: bool)
    ensures
        r == swift_supports(Type::Union(*u)),
{
    match u.representation {
        types::UnionRepresentation::AdjacentlyTagged { .. } => {},
        types::UnionRepresentation::ExternallyTagged => {},
        _ => return false,
    }
    let mut i: usize = 0;
    while i < u.variants.len()
        invariant
            i <= u.variants.len(),
            representation_ok(u.representation),
            forall|k: int| 0 <= k < i ==> variant_ok(#[trigger] u.variants@[k]),
        decreases u.variants.len() - i,
    {
        let v = &u.variants[i];
        if !v.labelled() || !v.ty.swift_supported() {
            return false;
        }
        i = i + 1;
    }
    true
}

fn render_struct(details: &Struct) -> (r: String)
    requires
        swift_supports(Type::Struct(*details)),
    ensures
        r@ == swift_text_of(Type::Struct(*details)),
{
    let st = SwiftStruct::new(details.name.as_str()).with_fields(&details.fields);
    let mut s = st.render();
    proof {
        let a = st.fields@;
        let b = details.fields@;
        assert forall|i: int| 0 <= i < a.len() implies #[trigger] a[i].name@ == camel_case(b[i].name@)
            && a[i].ty@ == swift_type_text(b[i].ty) && a[i].serde_name@ == b[i].serialized_name@ by {
            assert(field_made_from(a[0 + i], b[i]));
        }
        lemma_concat_map_congruent(
            a,
            |f: StructField| decl_parts_text(f.name@, f.ty@),
            b,
            |f: types::Field| decl_parts_text(camel_case(f.name@), swift_type_text(f.ty)),
        );
        lemma_concat_map_congruent(
            a,
            |f: StructField| assign_parts_text(f.name@),
            b,
            |f: types::Field| assign_parts_text(camel_case(f.name@)),
        );
        lemma_concat_map_congruent(
            a,
            |f: StructField| coding_key_parts_text(f.name@, f.serde_name@),
            b,
            |f: types::Field| coding_key_parts_text(camel_case(f.name@), f.serialized_name@),
        );
        assert(a.map_values(|f: StructField| param_parts_text(f.name@, f.ty@)) =~= b.map_values(
            |f: types::Field| param_parts_text(camel_case(f.name@), swift_type_text(f.ty)),
        ));
    }
    s.append("\n");
    s
}

fn render_newtype(details: &NewType) -> (r: String)
    requires
        swift_type_ok(details.inner),
    ensures
        r@ == swift_text_of(Type::NewType(*details)),
{
    let st = SwiftStruct::newtype(details.name.as_str(), &details.inner);
    let mut s = st.render();
    proof {
        let a = st.fields@;
        assert(a.drop_last() =~= Seq::<StructField>::empty());
        assert(a.last() == a[0]);
        assert(concat_map(a.drop_last(), |f: StructField| decl_parts_text(f.name@, f.ty@)) =~= Seq::<char>::empty());
        assert(concat_map(a.drop_last(), |f: StructField| assign_parts_text(f.name@)) =~= Seq::<char>::empty());
        assert(concat_map(a.drop_last(), |f: StructField| coding_key_parts_text(f.name@, f.serde_name@)) =~= Seq::<char>::empty());
        assert(concat_map(a, |f: StructField| decl_parts_text(f.name@, f.ty@)) =~= Seq::<char>::empty()
            + decl_parts_text(a[0].name@, a[0].ty@));
        assert(concat_map(a, |f: StructField| assign_parts_text(f.name@)) =~= Seq::<char>::empty()
            + assign_parts_text(a[0].name@));
        assert(concat_map(a, |f: StructField| coding_key_parts_text(f.name@, f.serde_name@)) =~= Seq::<char>::empty()
            + coding_key_parts_text(a[0].name@, a[0].serde_name@));
        assert(a.map_values(|f: StructField| param_parts_text(f.name@, f.ty@)) =~= seq![
            param_parts_text("value"@, swift_type_text(details.inner)),
        ]);
    }
    s.append("\n");
    s
}

fn render_alias(details: &Alias) -> (r: String)
    requires
        swift_type_ok(details.inner),
    ensures
        r@ == swift_text_of(Type::Alias(*details)),
{
    let mut s = String::from_str("typealias ");
    s.append(details.name.as_str());
    s.append(" = ");
    s.append(details.inner.swift_type().as_str());
    s.append("\n");
    s
}

fn render_enum(details: &Enum) -> (r: String)
    ensures
        r@ == swift_text_of(Type::Enum(*details)),
{
    let e = enums::Enum::new(details.name.as_str()).with_variants(&details.variants);
    let mut s = e.render();
    proof {
        assert forall|i: int| 0 <= i < e.variants@.len() implies variant_text(#[trigger] e.variants@[i])
            == coding_key_parts_text(camel_case(details.variants@[i].name@), details.variants@[i].serialized_name@) by {
            assert(enums::made_from(e.variants@[0 + i], details.variants@[i]));
        }
        lemma_concat_map_congruent(
            e.variants@,
            |v: enums::Variant| variant_text(v),
            details.variants@,
            |v: EnumVariant| coding_key_parts_text(camel_case(v.name@), v.serialized_name@),
        );
    }
    s.append("\n");
    s
}

fn render_union(details: &Union) -> (r: String)
    requires
        swift_supports(Type::Union(*details)),
    ensures
        r@ == swift_text_of(Type::Union(*details)),
{
    let u = unions::Union::new(details.name.as_str(), details.representation.duplicate())
        .with_variants(&details.variants);
    let mut s = u.render();
    proof {
        let repr = details.representation;
        let name = details.name@;
        let a = u.variants@;
        let b = details.variants@;
        assert forall|i: int| 0 <= i < a.len() implies #[trigger] a[i].name@ == camel_case(variant_label(b[i]))
            && a[i].ty@ == swift_type_text(b[i].ty) && a[i].serde_name@ == b[i].serialized_name@ by {
            assert(variant_made_from(a[0 + i], b[i]));
        }
        lemma_concat_map_congruent(
            a,
            |v: unions::Variant| case_parts_text(v.name@, v.ty@),
            b,
            |v: UnionVariant| case_parts_text(camel_case(variant_label(v)), swift_type_text(v.ty)),
        );
        lemma_concat_map_congruent(
            a,
            |v: unions::Variant| coding_key_parts_text(v.name@, v.serde_name@),
            b,
            |v: UnionVariant| coding_key_parts_text(camel_case(variant_label(v)), v.serialized_name@),
        );
        lemma_concat_map_congruent(
            a,
            |v: unions::Variant| encode_case_parts_text(repr, name, v.name@),
            b,
            |v: UnionVariant| encode_case_parts_text(repr, name, camel_case(variant_label(v))),
        );
        lemma_concat_map_congruent(
            a,
            |v: unions::Variant| decode_case_parts_text(repr, v.name@, v.ty@),
            b,
            |v: UnionVariant| decode_case_parts_text(repr, camel_case(variant_label(v)), swift_type_text(v.ty)),
        );
    }
    s.append("\n");
    s
}

/// A registered type to be written out as Swift.
pub enum SwiftType<'a> {
    /// A struct.
    Struct(&'a Struct),
    /// A newtype.
    NewType(&'a NewType),
    /// A type alias.
    Alias(&'a Alias),
    /// A data-less enum.
    Enum(&'a Enum),
    /// A union.
    Union(&'a Union),
}

impl<'a> SwiftType<'a> {
    /// The type this stands for.
    pub open spec fn ty(&self) -> Type {
        match *self {
            SwiftType::Struct(s) => Type::Struct(*s),
            SwiftType::NewType(n) => Type::NewType(*n),
            SwiftType::Alias(a) => Type::Alias(*a),
            SwiftType::Enum(e) => Type::Enum(*e),
            SwiftType::Union(u) => Type::Union(*u),
        }
    }

    /// Views a registered type as Swift output.
    pub fn from_type(ty: &'a Type) -> (r: SwiftType<'a>)
        ensures
            r.ty() == *ty,
    {
        match ty {
            Type::Struct(inner) => SwiftType::Struct(inner),
            Type::Enum(inner) => SwiftType::Enum(inner),
            Type::Union(inner) => SwiftType::Union(inner),
            Type::NewType(inner) => SwiftType::NewType(inner),
            Type::Alias(inner) => SwiftType::Alias(inner),
        }
    }

    /// The Swift source for this type, or `None` where Swift output does not
    /// support it (time values; untagged or internally tagged unions; unnamed
    /// variants).
    pub fn render(&self) -> (r: Option<String>)
        ensures
            r is Some <==> swift_supports(self.ty()),
            r matches Some(t) ==> t@ == swift_text_of(self.ty()),
    {
        match self {
            SwiftType::Struct(details) => {
                if fields_supported(&details.fields) {
                    Some(render_struct(details))
                } else {
                    None
                }
            },
            SwiftType::NewType(details) => {
                if details.inner.swift_supported() {
                    Some(render_newtype(details))
                } else {
                    None
                }
            },
            SwiftType::Alias(details) => {
                if details.inner.swift_supported() {
                    Some(render_alias(details))
                } else {
                    None
                }
            },
            SwiftType::Enum(details) => Some(render_enum(details)),
            SwiftType::Union(details) => {
                if union_supported(details) {
                    Some(render_union(details))
                } else {
                    None
                }
            },
        }
    }
}

impl<'a> OutputFormat for SwiftType<'a> {
    open spec fn supports(ty: Type) -> bool {
        swift_supports(ty)
    }

    open spec fn text_of(ty: Type) -> Seq<char> {
        swift_text_of(ty)
    }

    fn supports_type(ty: &Type) -> (r: bool) {
        match ty {
            Type::Struct(s) => fields_supported(&s.fields),
            Type::NewType(n) => n.inner.swift_supported(),
            Type::Alias(a) => a.inner.swift_supported(),
            Type::Enum(_) => true,
            Type::Union(u) => union_supported(u),
        }
    }

    fn render_type(ty: &Type) -> (r: String) {
        match ty {
            Type::Struct(details) => render_struct(details),
            Type::NewType(details) => render_newtype(details),
            Type::Alias(details) => render_alias(details),
            Type::Enum(details) => render_enum(details),
            Type::Union(details) => render_union(details),
        }
    }
}

} // verus!
