use go_away::types::{FieldType, Primitive, TypeRef, Union, UnionRepresentation, UnionVariant};
use go_away::wire::{decode_union, encode_union, Json, Member, WireError};

fn named(name: &str) -> FieldType {
    FieldType::Named(TypeRef { name: name.into() })
}

fn member(key: &str, value: Json) -> Member {
    Member { key: key.into(), value }
}

fn union_of(representation: UnionRepresentation, variants: Vec<(&str, FieldType)>) -> Union {
    Union {
        name: "MyUnion".into(),
        representation,
        variants: variants
            .into_iter()
            .map(|(n, ty)| UnionVariant { name: Some(n.into()), ty, serialized_name: n.into() })
            .collect(),
    }
}

fn one() -> Json {
    Json::Object(vec![member("x", Json::Number(1))])
}

fn two() -> Json {
    Json::Object(vec![member("y", Json::Bool(true))])
}

fn struct_variants() -> Vec<(&'static str, FieldType)> {
    vec![("One", named("One")), ("Two", named("Two"))]
}

fn round_trip(u: &Union, slot: usize, payload: Json) -> (usize, Json) {
    let mut slots: Vec<Option<Json>> = u.variants.iter().map(|_| None).collect();
    slots[slot] = Some(payload);
    let encoded = encode_union(u, slots).unwrap();
    decode_union(u, encoded).unwrap()
}

fn assert_same(a: &Json, b: &Json) {
    assert_eq!(format!("{a:?}"), format!("{b:?}"));
}

#[test]
fn externally_tagged_round_trip() {
    let u = union_of(UnionRepresentation::ExternallyTagged, struct_variants());
    let (i, p) = round_trip(&u, 1, two());
    assert_eq!(i, 1);
    assert_same(&p, &two());
}

#[test]
fn externally_tagged_shape() {
    let u = union_of(UnionRepresentation::ExternallyTagged, struct_variants());
    let out = encode_union(&u, vec![Some(one()), None]).unwrap();
    assert_same(&out, &Json::Object(vec![member("One", one())]));
}

#[test]
fn internally_tagged_round_trip() {
    let u = union_of(UnionRepresentation::InternallyTagged { tag: "type".into() }, struct_variants());
    let out = encode_union(&u, vec![Some(one()), None]).unwrap();
    assert_same(
        &out,
        &Json::Object(vec![member("type", Json::Text("One".into())), member("x", Json::Number(1))]),
    );
    let (i, p) = decode_union(&u, out).unwrap();
    assert_eq!(i, 0);
    assert_same(&p, &one());
}

#[test]
fn internally_tagged_needs_an_object() {
    let u = union_of(
        UnionRepresentation::InternallyTagged { tag: "type".into() },
        vec![("A", FieldType::Primitive(Primitive::Int)), ("B", named("Two"))],
    );
    assert_eq!(encode_union(&u, vec![Some(Json::Number(3)), None]).unwrap_err(), WireError::NotAnObject);
    let clash = Json::Object(vec![member("type", Json::Null)]);
    assert_eq!(encode_union(&u, vec![None, Some(clash)]).unwrap_err(), WireError::TagInPayload);
}

#[test]
fn adjacently_tagged_round_trip() {
    let u = union_of(
        UnionRepresentation::AdjacentlyTagged { tag: "type".into(), content: "data".into() },
        struct_variants(),
    );
    let out = encode_union(&u, vec![None, Some(two())]).unwrap();
    assert_same(
        &out,
        &Json::Object(vec![member("type", Json::Text("Two".into())), member("data", two())]),
    );
    let (i, p) = decode_union(&u, out).unwrap();
    assert_eq!(i, 1);
    assert_same(&p, &two());
}

#[test]
fn untagged_round_trip() {
    let u = union_of(
        UnionRepresentation::Untagged,
        vec![("Count", FieldType::Primitive(Primitive::Int)), ("Label", FieldType::Primitive(Primitive::String))],
    );
    let (i, p) = round_trip(&u, 1, Json::Text("hi".into()));
    assert_eq!(i, 1);
    assert_same(&p, &Json::Text("hi".into()));
    let (i, _) = round_trip(&u, 0, Json::Number(7));
    assert_eq!(i, 0);
}

#[test]
fn untagged_first_fit_wins() {
    let u = union_of(UnionRepresentation::Untagged, struct_variants());
    let (i, _) = round_trip(&u, 1, two());
    assert_eq!(i, 0);
}

fn some_union() -> Union {
    union_of(UnionRepresentation::InternallyTagged { tag: "type".into() }, struct_variants())
}

#[test]
fn validate_with_no_variants_fails() {
    assert_eq!(encode_union(&some_union(), vec![None, None]).unwrap_err(), WireError::PopulatedVariants(0));
}

#[test]
fn validate_with_one_variant_passes() {
    assert!(encode_union(&some_union(), vec![Some(one()), None]).is_ok());
}

#[test]
fn validate_with_two_variants_fails() {
    assert_eq!(
        encode_union(&some_union(), vec![Some(one()), Some(two())]).unwrap_err(),
        WireError::PopulatedVariants(2)
    );
}

#[test]
fn decode_errors() {
    let adjacent = union_of(
        UnionRepresentation::AdjacentlyTagged { tag: "type".into(), content: "data".into() },
        struct_variants(),
    );
    assert_eq!(decode_union(&adjacent, Json::Null).unwrap_err(), WireError::NotAnObject);
    assert_eq!(
        decode_union(&adjacent, Json::Object(vec![member("data", one())])).unwrap_err(),
        WireError::MissingTag
    );
    assert_eq!(
        decode_union(&adjacent, Json::Object(vec![member("type", Json::Text("Three".into()))])).unwrap_err(),
        WireError::UnknownVariant("Three".into())
    );
    assert_eq!(
        decode_union(&adjacent, Json::Object(vec![member("type", Json::Text("One".into()))])).unwrap_err(),
        WireError::MissingContent
    );
    let external = union_of(UnionRepresentation::ExternallyTagged, struct_variants());
    assert_eq!(
        decode_union(&external, Json::Object(vec![member("One", one()), member("Two", two())])).unwrap_err(),
        WireError::NotOneKey(2)
    );
    let untagged = union_of(UnionRepresentation::Untagged, struct_variants());
    assert_eq!(decode_union(&untagged, Json::Bool(false)).unwrap_err(), WireError::NoMatch);
}

#[test]
fn nested_scenario_round_trip() {
    let value = Json::Object(vec![
        member("some_other_name", Json::Text("hello".into())),
        member("an_int", Json::Number(65536)),
        member("fulfilment_type", Json::Text("COLLECTION".into())),
    ]);
    let u = union_of(UnionRepresentation::ExternallyTagged, vec![("Nested", named("Nested"))]);
    let (i, p) = round_trip(&u, 0, value);
    assert_eq!(i, 0);
    match p {
        Json::Object(ms) => {
            assert_eq!(ms[0].key, "some_other_name");
            assert!(matches!(&ms[0].value, Json::Text(t) if t == "hello"));
            assert!(matches!(ms[1].value, Json::Number(65536)));
            assert!(matches!(&ms[2].value, Json::Text(t) if t == "COLLECTION"));
        }
        _ => panic!("expected an object"),
    }
}
