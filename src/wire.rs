//! The JSON shapes of union values under each representation: encoding a
//! populated variant, decoding it back, and the rule that exactly one variant
//! is populated.

use vstd::prelude::*;

use crate::types::{FieldType, Primitive, Union, UnionRepresentation, UnionVariant};

verus! {

/// A JSON value.
#[derive(Debug)]
pub enum Json {
    /// `null`
    Null,
    /// `true` or `false`
    Bool(bool),
    /// A number.
    Number(i64),
    /// A string.
    Text(String),
    /// An array.
    Array(Vec<Json>),
    /// An object, its members in order.
    Object(Vec<Member>),
}

/// A member of a JSON object.
#[derive(Debug)]
pub struct Member {
    /// The key.
    pub key: String,
    /// The value.
    pub value: Json,
}

/// Why a union value could not be encoded or decoded.
#[derive(Debug, PartialEq, Eq)]
pub enum WireError {
    /// Not exactly one variant was populated; the count is given.
    PopulatedVariants(usize),
    /// The representation needs an object and got something else.
    NotAnObject,
    /// The tag is missing or is not a string.
    MissingTag,
    /// The tag names no variant.
    UnknownVariant(String),
    /// The content member is missing.
    MissingContent,
    /// An externally tagged value must have exactly one member.
    NotOneKey(usize),
    /// No variant of an untagged union matches the value.
    NoMatch,
    /// An internally tagged payload already holds the tag key.
    TagInPayload,
}

/// Two values that are the same JSON: arrays and objects compare by their
/// elements.
pub open spec fn same_json(a: Json, b: Json) -> bool {
    match (a, b) {
        (Json::Array(x), Json::Array(y)) => x@ == y@,
        (Json::Object(x), Json::Object(y)) => x@ == y@,
        _ => a == b,
    }
}

/// Whether the outer shape of `j` fits a field of type `ty`: named types are
/// objects, and optional values may be null.
pub open spec fn fits(ty: FieldType, j: Json) -> bool
    decreases ty,
{
    match ty {
        FieldType::Optional(inner) => j is Null || fits(*inner, j),
        FieldType::List(_) => j is Array,
        FieldType::Dictionary { .. } => j is Object,
        FieldType::Named(_) => j is Object,
        FieldType::Primitive(p) => match p {
            Primitive::String => j is Text,
            Primitive::Time => j is Text,
            Primitive::Int => j is Number,
            Primitive::Float => j is Number,
            Primitive::Bool => j is Bool,
        },
    }
}

/// The index of the first member keyed `key`.
pub open spec fn member_index(ms: Seq<Member>, key: Seq<char>) -> Option<int> {
    if exists|k: int| 0 <= k < ms.len() && #[trigger] ms[k].key@ == key {
        Some(
            choose|k: int|
                0 <= k < ms.len() && #[trigger] ms[k].key@ == key && forall|l: int|
                    0 <= l < k ==> ms[l].key@ != key,
        )
    } else {
        None
    }
}

/// The index of the first variant serialized as `name`.
pub open spec fn variant_index(vs: Seq<UnionVariant>, name: Seq<char>) -> Option<int> {
    if exists|k: int| 0 <= k < vs.len() && #[trigger] vs[k].serialized_name@ == name {
        Some(
            choose|k: int|
                0 <= k < vs.len() && #[trigger] vs[k].serialized_name@ == name && forall|l: int|
                    0 <= l < k ==> vs[l].serialized_name@ != name,
        )
    } else {
        None
    }
}

/// The index of the first variant whose type `j` fits.
pub open spec fn fitting_index(vs: Seq<UnionVariant>, j: Json) -> Option<int> {
    if exists|k: int| 0 <= k < vs.len() && fits(#[trigger] vs[k].ty, j) {
        Some(
            choose|k: int|
                0 <= k < vs.len() && fits(#[trigger] vs[k].ty, j) && forall|l: int|
                    0 <= l < k ==> !fits(vs[l].ty, j),
        )
    } else {
        None
    }
}

/// A string value holding `name`.
pub open spec fn is_text(j: Json, name: Seq<char>) -> bool {
    match j {
        Json::Text(t) => t@ == name,
        _ => false,
    }
}

/// The members of an object, if `j` is one.
pub open spec fn members(j: Json) -> Option<Seq<Member>> {
    match j {
        Json::Object(ms) => Some(ms@),
        _ => None,
    }
}

/// `out` is `payload` encoded as the variant serialized as `name`.
pub open spec fn encodes(repr: UnionRepresentation, name: Seq<char>, payload: Json, out: Json) -> bool {
    match members(out) {
        None => repr is Untagged && out == payload,
        Some(ms) => match repr {
            UnionRepresentation::AdjacentlyTagged { tag, content } => {
                &&& ms.len() == 2
                &&& ms[0].key@ == tag@
                &&& is_text(ms[0].value, name)
                &&& ms[1].key@ == content@
                &&& ms[1].value == payload
            },
            UnionRepresentation::InternallyTagged { tag } => match members(payload) {
                Some(ps) => {
                    &&& ms.len() == ps.len() + 1
                    &&& ms[0].key@ == tag@
                    &&& is_text(ms[0].value, name)
                    &&& ms.drop_first() == ps
                },
                None => false,
            },
            UnionRepresentation::ExternallyTagged => {
                &&& ms.len() == 1
                &&& ms[0].key@ == name
                &&& ms[0].value == payload
            },
            UnionRepresentation::Untagged => out == payload,
        },
    }
}

/// The variant that the member at `k` names as a tag.
pub open spec fn tag_names(vs: Seq<UnionVariant>, ms: Seq<Member>, k: int, i: int) -> bool {
    match ms[k].value {
        Json::Text(t) => variant_index(vs, t@) == Some(i),
        _ => false,
    }
}

/// Decoding `j` as a value of `u` gives variant `i` with payload `payload`:
/// the tag (or, externally tagged, the one key) names the variant, or,
/// untagged, the first variant whose type fits.
pub open spec fn decodes(u: Union, j: Json, i: int, payload: Json) -> bool {
    let vs = u.variants@;
    match u.representation {
        UnionRepresentation::Untagged => fitting_index(vs, j) == Some(i) && same_json(j, payload),
        UnionRepresentation::AdjacentlyTagged { tag, content } => match members(j) {
            Some(ms) => match (member_index(ms, tag@), member_index(ms, content@)) {
                (Some(k), Some(c)) => tag_names(vs, ms, k, i) && same_json(ms[c].value, payload),
                _ => false,
            },
            None => false,
        },
        UnionRepresentation::InternallyTagged { tag } => match (members(j), members(payload)) {
            (Some(ms), Some(ps)) => match member_index(ms, tag@) {
                Some(k) => tag_names(vs, ms, k, i) && ps == ms.remove(k),
                None => false,
            },
            _ => false,
        },
        UnionRepresentation::ExternallyTagged => match members(j) {
            Some(ms) => ms.len() == 1 && variant_index(vs, ms[0].key@) == Some(i) && same_json(
                ms[0].value,
                payload,
            ),
            None => false,
        },
    }
}

/// How many of `slots` are populated.
pub open spec fn populated(slots: Seq<Option<Json>>) -> nat
    decreases slots.len(),
{
    if slots.len() == 0 {
        0
    } else {
        populated(slots.drop_last()) + if slots.last() is Some {
            1nat
        } else {
            0nat
        }
    }
}

/// The wire names of a union's variants are distinct, and so are the tag
/// and content keys of an adjacently tagged union.
pub open spec fn names_distinct(u: Union) -> bool {
    &&& forall|a: int, b: int|
        0 <= a < u.variants.len() && 0 <= b < u.variants.len() && a != b
            ==> #[trigger] u.variants@[a].serialized_name@ != #[trigger] u.variants@[b].serialized_name@
    &&& match u.representation {
        UnionRepresentation::AdjacentlyTagged { tag, content } => tag@ != content@,
        _ => true,
    }
}

/// Whether `payload` can be written as variant `i` of `u`: an internally
/// tagged union merges the tag into an object payload that lacks it.
pub open spec fn encodable(u: Union, payload: Json) -> bool {
    match u.representation {
        UnionRepresentation::InternallyTagged { tag } => match members(payload) {
            Some(ps) => member_index(ps, tag@) is None,
            None => false,
        },
        _ => true,
    }
}

/// Decoding what encoding wrote gives back the variant and its payload: for
/// the tagged representations when the wire names are distinct, and for an
/// untagged union when no earlier variant fits the payload.
pub proof fn lemma_round_trip(u: Union, i: int, payload: Json, out: Json)
    requires
        0 <= i < u.variants.len(),
        encodes(u.representation, u.variants@[i].serialized_name@, payload, out),
        encodable(u, payload),
        !(u.representation is Untagged) ==> names_distinct(u),
        u.representation is Untagged ==> fits(u.variants@[i].ty, payload) && forall|k: int|
            0 <= k < i ==> !fits(#[trigger] u.variants@[k].ty, payload),
    ensures
        decodes(u, out, i, payload),
        forall|k: int, p: Json| #[trigger] decodes(u, out, k, p) ==> k == i && same_json(p, payload),
{
    let vs = u.variants@;
    let name = vs[i].serialized_name@;
    assert(vs[i].serialized_name@ == name);
    if !(u.representation is Untagged) {
        let k = variant_index(vs, name)->0;
        assert(variant_index(vs, name) is Some);
        assert(vs[k].serialized_name@ == name);
        assert(k == i);
    }
    match u.representation {
        UnionRepresentation::AdjacentlyTagged { tag, content } => {
            let ms = members(out)->0;
            assert(ms[0].key@ == tag@);
            assert(member_index(ms, tag@) is Some);
            let k = member_index(ms, tag@)->0;
            assert(k == 0);
            assert(ms[1].key@ == content@);
            assert(member_index(ms, content@) is Some);
            let c = member_index(ms, content@)->0;
            assert(c == 0 || c == 1);
            if c == 0 {
                assert(tag@ == content@);
            }
        },
        UnionRepresentation::InternallyTagged { tag } => {
            let ms = members(out)->0;
            assert(ms[0].key@ == tag@);
            assert(member_index(ms, tag@) is Some);
            let k = member_index(ms, tag@)->0;
            assert(k == 0);
            assert(ms.remove(0) =~= ms.drop_first());
        },
        UnionRepresentation::ExternallyTagged => {},
        UnionRepresentation::Untagged => {
            assert(fitting_index(vs, payload) is Some);
            let k = fitting_index(vs, payload)->0;
            assert(k == i);
        },
    }
    assert forall|k: int, p: Json| #[trigger] decodes(u, out, k, p) implies k == i && same_json(p, payload) by {
        match u.representation {
            UnionRepresentation::InternallyTagged { .. } => {
                assert(members(p)->0 =~= members(payload)->0);
            },
            _ => {},
        }
    }
}

/// Two populated slots make at least two.
pub proof fn lemma_populated_two(s: Seq<Option<Json>>, a: int, b: int)
    requires
        0 <= a < s.len(),
        0 <= b < s.len(),
        a != b,
        s[a] is Some,
        s[b] is Some,
    ensures
        populated(s) >= 2,
    decreases s.len(),
{
    let n = s.len() - 1;
    if a != n && b != n {
        lemma_populated_two(s.drop_last(), a, b);
    } else {
        let other = if a == n {
            b
        } else {
            a
        };
        lemma_populated_one(s.drop_last(), other);
    }
}

/// No populated slot makes none.
pub proof fn lemma_populated_none(s: Seq<Option<Json>>)
    requires
        forall|l: int| 0 <= l < s.len() ==> s[l] is None,
    ensures
        populated(s) == 0,
    decreases s.len(),
{
    if s.len() > 0 {
        lemma_populated_none(s.drop_last());
    }
}

/// A populated slot makes at least one.
pub proof fn lemma_populated_one(s: Seq<Option<Json>>, a: int)
    requires
        0 <= a < s.len(),
        s[a] is Some,
    ensures
        populated(s) >= 1,
    decreases s.len(),
{
    if a != s.len() - 1 {
        lemma_populated_one(s.drop_last(), a);
    }
}

/// How many of `slots` are populated.
pub fn count_populated(slots: &Vec<Option<Json>>) -> (r: usize)
    ensures
        r == populated(slots@),
{
    let mut count: usize = 0;
    let mut k: usize = 0;
    while k < slots.len()
        invariant
            k <= slots.len(),
            count <= k,
            count == populated(slots@.subrange(0, k as int)),
        decreases slots.len() - k,
    {
        assert(slots@.subrange(0, k as int + 1).drop_last() =~= slots@.subrange(0, k as int));
        if slots[k].is_some() {
            count = count + 1;
        }
        k = k + 1;
    }
    assert(slots@.subrange(0, slots.len() as int) =~= slots@);
    count
}

fn find_member(ms: &Vec<Member>, key: &String) -> (r: Option<usize>)
    ensures
        r is None <==> member_index(ms@, key@) is None,
        r matches Some(k) ==> member_index(ms@, key@) == Some(k as int) && k < ms.len(),
{
    let mut k: usize = 0;
    while k < ms.len()
        invariant
            k <= ms.len(),
            forall|l: int| 0 <= l < k ==> ms@[l].key@ != key@,
        decreases ms.len() - k,
    {
        if ms[k].key == *key {
            proof {
                assert(ms@[k as int].key@ == key@);
                let c = member_index(ms@, key@)->0;
                assert(ms@[c].key@ == key@);
                assert(c == k);
            }
            return Some(k);
        }
        k = k + 1;
    }
    None
}

fn find_variant(vs: &Vec<UnionVariant>, name: &String) -> (r: Option<usize>)
    ensures
        r is None <==> variant_index(vs@, name@) is None,
        r matches Some(k) ==> variant_index(vs@, name@) == Some(k as int) && k < vs.len(),
{
    let mut k: usize = 0;
    while k < vs.len()
        invariant
            k <= vs.len(),
            forall|l: int| 0 <= l < k ==> vs@[l].serialized_name@ != name@,
        decreases vs.len() - k,
    {
        if vs[k].serialized_name == *name {
            proof {
                assert(vs@[k as int].serialized_name@ == name@);
                let c = variant_index(vs@, name@)->0;
                assert(vs@[c].serialized_name@ == name@);
                assert(c == k);
            }
            return Some(k);
        }
        k = k + 1;
    }
    None
}

impl FieldType {
    /// Whether the outer shape of `j` fits this type.
    pub fn fits(&self, j: &Json) -> (r: bool)
        ensures
            r == fits(*self, *j),
        decreases self,
    {
        match self {
            FieldType::Optional(inner) => {
                match j {
                    Json::Null => true,
                    _ => inner.fits(j),
                }
            },
            FieldType::List(_) => matches!(j, Json::Array(_)),
            FieldType::Dictionary { .. } => matches!(j, Json::Object(_)),
            FieldType::Named(_) => matches!(j, Json::Object(_)),
            FieldType::Primitive(p) => match p {
                Primitive::String => matches!(j, Json::Text(_)),
                Primitive::Time => matches!(j, Json::Text(_)),
                Primitive::Int => matches!(j, Json::Number(_)),
                Primitive::Float => matches!(j, Json::Number(_)),
                Primitive::Bool => matches!(j, Json::Bool(_)),
            },
        }
    }
}

fn find_fitting(vs: &Vec<UnionVariant>, j: &Json) -> (r: Option<usize>)
    ensures
        r is None <==> fitting_index(vs@, *j) is None,
        r matches Some(k) ==> fitting_index(vs@, *j) == Some(k as int),
{
    let mut k: usize = 0;
    while k < vs.len()
        invariant
            k <= vs.len(),
            forall|l: int| 0 <= l < k ==> !fits(vs@[l].ty, *j),
        decreases vs.len() - k,
    {
        if vs[k].ty.fits(j) {
            proof {
                let c = fitting_index(vs@, *j)->0;
                assert(fits(vs@[c].ty, *j));
                assert(c == k);
            }
            return Some(k);
        }
        k = k + 1;
    }
    None
}

/// What encoding `payload` as the variant serialized as `name` gives: the
/// encoded value where `u` can take the payload; where it cannot (internally
/// tagged), `TagInPayload` for an object that holds the tag key and
/// `NotAnObject` for anything else.
pub open spec fn encode_outcome(u: Union, name: Seq<char>, payload: Json, r: Result<Json, WireError>) -> bool {
    if encodable(u, payload) {
        match r {
            Ok(out) => encodes(u.representation, name, payload, out),
            Err(_) => false,
        }
    } else if payload is Object {
        r == Err::<Json, WireError>(WireError::TagInPayload)
    } else {
        r == Err::<Json, WireError>(WireError::NotAnObject)
    }
}

/// Reads `j` as a value of `u`: which variant it holds, and its payload.
/// Fails exactly where no variant and payload decode from `j`.
pub fn decode_union(u: &Union, j: Json) -> (r: Result<(usize, Json), WireError>)
    ensures
        r matches Ok((i, p)) ==> decodes(*u, j, i as int, p),
        r is Err ==> forall|i: int, p: Json| !#[trigger] decodes(*u, j, i, p),
{
    match &u.representation {
        UnionRepresentation::Untagged => match find_fitting(&u.variants, &j) {
            Some(i) => Ok((i, j)),
            None => Err(WireError::NoMatch),
        },
        UnionRepresentation::AdjacentlyTagged { tag, content } => decode_adjacent(u, tag, content, j),
        UnionRepresentation::InternallyTagged { tag } => decode_internal(u, tag, j),
        UnionRepresentation::ExternallyTagged => decode_external(u, j),
    }
}

/// The variant that the tag member at `k` names.
fn tagged_variant(vs: &Vec<UnionVariant>, ms: &Vec<Member>, k: usize) -> (r: Result<usize, WireError>)
    requires
        k < ms.len(),
    ensures
        r matches Ok(i) ==> tag_names(vs@, ms@, k as int, i as int),
        r is Err ==> forall|i: int| !#[trigger] tag_names(vs@, ms@, k as int, i),
{
    match &ms[k].value {
        Json::Text(t) => match find_variant(vs, t) {
            Some(i) => Ok(i),
            None => Err(WireError::UnknownVariant(t.clone())),
        },
        _ => Err(WireError::MissingTag),
    }
}

fn decode_adjacent(u: &Union, tag: &String, content: &String, j: Json) -> (r: Result<(usize, Json), WireError>)
    requires
        u.representation == (UnionRepresentation::AdjacentlyTagged { tag: *tag, content: *content }),
    ensures
        r matches Ok((i, p)) ==> decodes(*u, j, i as int, p),
        r is Err ==> forall|i: int, p: Json| !#[trigger] decodes(*u, j, i, p),
{
    let mut ms = match j {
        Json::Object(ms) => ms,
        _ => {
            return Err(WireError::NotAnObject);
        },
    };
    let k = match find_member(&ms, tag) {
        Some(k) => k,
        None => {
            return Err(WireError::MissingTag);
        },
    };
    let i = match tagged_variant(&u.variants, &ms, k) {
        Ok(i) => i,
        Err(e) => {
            return Err(e);
        },
    };
    let c = match find_member(&ms, content) {
        Some(c) => c,
        None => {
            return Err(WireError::MissingContent);
        },
    };
    let ghost before = ms@;
    let m = ms.remove(c);
    assert(m == before[c as int]);
    Ok((i, m.value))
}

fn decode_internal(u: &Union, tag: &String, j: Json) -> (r: Result<(usize, Json), WireError>)
    requires
        u.representation == (UnionRepresentation::InternallyTagged { tag: *tag }),
    ensures
        r matches Ok((i, p)) ==> decodes(*u, j, i as int, p),
        r is Err ==> forall|i: int, p: Json| !#[trigger] decodes(*u, j, i, p),
{
    let mut ms = match j {
        Json::Object(ms) => ms,
        _ => {
            return Err(WireError::NotAnObject);
        },
    };
    let k = match find_member(&ms, tag) {
        Some(k) => k,
        None => {
            return Err(WireError::MissingTag);
        },
    };
    let i = match tagged_variant(&u.variants, &ms, k) {
        Ok(i) => i,
        Err(e) => {
            return Err(e);
        },
    };
    ms.remove(k);
    Ok((i, Json::Object(ms)))
}

fn decode_external(u: &Union, j: Json) -> (r: Result<(usize, Json), WireError>)
    requires
        u.representation == UnionRepresentation::ExternallyTagged,
    ensures
        r matches Ok((i, p)) ==> decodes(*u, j, i as int, p),
        r is Err ==> forall|i: int, p: Json| !#[trigger] decodes(*u, j, i, p),
{
    let mut ms = match j {
        Json::Object(ms) => ms,
        _ => {
            return Err(WireError::NotAnObject);
        },
    };
    if ms.len() != 1 {
        return Err(WireError::NotOneKey(ms.len()));
    }
    let i = match find_variant(&u.variants, &ms[0].key) {
        Some(i) => i,
        None => {
            return Err(WireError::UnknownVariant(ms[0].key.clone()));
        },
    };
    let ghost before = ms@;
    let m = ms.remove(0);
    assert(m == before[0]);
    Ok((i, m.value))
}

fn text(s: &String) -> (r: Json)
    ensures
        is_text(r, s@),
{
    Json::Text(s.clone())
}

/// Writes the one populated slot of `slots` as a value of `u`, in `u`'s
/// representation. Fails, with the count, unless exactly one slot is
/// populated; an internally tagged union also needs an object payload
/// without the tag key.
pub fn encode_union(u: &Union, slots: Vec<Option<Json>>) -> (r: Result<Json, WireError>)
    requires
        slots.len() == u.variants.len(),
    ensures
        populated(slots@) != 1 <==> r == Err::<Json, WireError>(
            WireError::PopulatedVariants(populated(slots@) as usize),
        ),
        forall|i: int|
            0 <= i < slots.len() && (#[trigger] slots@[i]) is Some && populated(slots@) == 1
                ==> encode_outcome(*u, u.variants@[i].serialized_name@, slots@[i]->0, r),
{
    let count = count_populated(&slots);
    if count != 1 {
        return Err(WireError::PopulatedVariants(count));
    }
    let mut slots = slots;
    let ghost original = slots@;
    let mut idx: usize = 0;
    while idx < slots.len() && slots[idx].is_none()
        invariant
            slots@ == original,
            populated(original) == 1,
            idx <= slots.len(),
            forall|l: int| 0 <= l < idx ==> original[l] is None,
        decreases slots.len() - idx,
    {
        idx = idx + 1;
    }
    if idx == slots.len() {
        proof {
            lemma_populated_none(original);
        }
        return Err(WireError::PopulatedVariants(0));
    }
    proof {
        assert forall|i: int| 0 <= i < original.len() && #[trigger] original[i] is Some implies i
            == idx by {
            if i != idx {
                lemma_populated_two(original, i, idx as int);
            }
        }
    }
    let payload = match slots.remove(idx) {
        Some(p) => p,
        None => {
            return Err(WireError::PopulatedVariants(0));
        },
    };
    let name = &u.variants[idx].serialized_name;
    match &u.representation {
        UnionRepresentation::AdjacentlyTagged { tag, content } => {
            let mut ms: Vec<Member> = Vec::new();
            ms.push(Member { key: tag.clone(), value: text(name) });
            ms.push(Member { key: content.clone(), value: payload });
            Ok(Json::Object(ms))
        },
        UnionRepresentation::InternallyTagged { tag } => {
            match payload {
                Json::Object(ps) => {
                    if find_member(&ps, tag).is_some() {
                        return Err(WireError::TagInPayload);
                    }
                    let ghost fields = ps@;
                    let mut ms: Vec<Member> = Vec::new();
                    ms.push(Member { key: tag.clone(), value: text(name) });
                    let mut ps = ps;
                    ms.append(&mut ps);
                    assert(ms@.drop_first() =~= fields);
                    Ok(Json::Object(ms))
                },
                _ => Err(WireError::NotAnObject),
            }
        },
        UnionRepresentation::ExternallyTagged => {
            let mut ms: Vec<Member> = Vec::new();
            ms.push(Member { key: name.clone(), value: payload });
            Ok(Json::Object(ms))
        },
        UnionRepresentation::Untagged => Ok(payload),
    }
}

} // verus!

