//! The output driver: renders every registered type, category by category,
//! with one backend.

use vstd::prelude::*;

use crate::registry::{
    declared_name, held_once, ids_unique, index_of, kind_of, lemma_registration_idempotent,
    lemma_shared_type_registered_once, may_register, registered, Entries, Type, TypeKind,
    TypeRegistry,
};
use crate::text::{contains, lemma_contains_extend, lemma_contains_middle};
use crate::type_id::TypeIdView;

verus! {

/// A backend that turns one registered type into source text.
pub trait OutputFormat {
    /// Whether the backend can express `ty`.
    spec fn supports(ty: Type) -> bool;

    /// The text the backend emits for `ty`.
    spec fn text_of(ty: Type) -> Seq<char>;

    /// Whether the backend can express `ty`.
    fn supports_type(ty: &Type) -> (r: bool)
        ensures
            r == Self::supports(*ty),
    ;

    /// The text for `ty`.
    fn render_type(ty: &Type) -> (r: String)
        requires
            Self::supports(*ty),
        ensures
            r@ == Self::text_of(*ty),
    ;
}

/// A registered type that the chosen backend cannot express.
#[derive(Debug)]
pub struct Unsupported {
    /// The name of the type.
    pub name: String,
}

/// The texts of the entries of `kind` from position `j` on, the latest
/// registered first.
pub open spec fn category_text(
    entries: Entries,
    kind: TypeKind,
    text: spec_fn(Type) -> Seq<char>,
    j: int,
) -> Seq<char>
    decreases entries.len() - j,
{
    if j < 0 || j >= entries.len() {
        Seq::empty()
    } else {
        category_text(entries, kind, text, j + 1) + if kind_of(entries[j].1) == kind {
            text(entries[j].1)
        } else {
            Seq::empty()
        }
    }
}

/// The whole output: structs, unions, newtypes, enums and aliases, each
/// category the latest registered first.
pub open spec fn output_text(entries: Entries, text: spec_fn(Type) -> Seq<char>) -> Seq<char> {
    category_text(entries, TypeKind::Struct, text, 0) + category_text(
        entries,
        TypeKind::Union,
        text,
        0,
    ) + category_text(entries, TypeKind::NewType, text, 0) + category_text(
        entries,
        TypeKind::Enum,
        text,
        0,
    ) + category_text(entries, TypeKind::Alias, text, 0)
}

proof fn lemma_category_contains(
    entries: Entries,
    kind: TypeKind,
    text: spec_fn(Type) -> Seq<char>,
    j: int,
    k: int,
)
    requires
        0 <= j <= k < entries.len(),
        kind_of(entries[k].1) == kind,
    ensures
        contains(category_text(entries, kind, text, j), text(entries[k].1)),
    decreases k - j,
{
    let t = text(entries[k].1);
    if j == k {
        let rest = category_text(entries, kind, text, k + 1);
        assert(category_text(entries, kind, text, k) =~= rest + t + Seq::<char>::empty());
        lemma_contains_middle(rest, t, Seq::<char>::empty());
    } else {
        lemma_category_contains(entries, kind, text, j + 1, k);
        let rest = category_text(entries, kind, text, j + 1);
        let piece = category_text(entries, kind, text, j).subrange(
            rest.len() as int,
            category_text(entries, kind, text, j).len() as int,
        );
        assert(category_text(entries, kind, text, j) =~= Seq::<char>::empty() + rest + piece);
        lemma_contains_extend(Seq::<char>::empty(), rest, piece, t);
    }
}

/// Every registered type's text is part of the output.
pub proof fn lemma_entry_rendered(entries: Entries, text: spec_fn(Type) -> Seq<char>, k: int)
    requires
        0 <= k < entries.len(),
    ensures
        contains(output_text(entries, text), text(entries[k].1)),
{
    let t = text(entries[k].1);
    let kind = kind_of(entries[k].1);
    lemma_category_contains(entries, kind, text, 0, k);
    let c1 = category_text(entries, TypeKind::Struct, text, 0);
    let c2 = category_text(entries, TypeKind::Union, text, 0);
    let c3 = category_text(entries, TypeKind::NewType, text, 0);
    let c4 = category_text(entries, TypeKind::Enum, text, 0);
    let c5 = category_text(entries, TypeKind::Alias, text, 0);
    let out = output_text(entries, text);
    match kind {
        TypeKind::Struct => {
            assert(out =~= Seq::<char>::empty() + c1 + (c2 + c3 + c4 + c5));
            lemma_contains_extend(Seq::<char>::empty(), c1, c2 + c3 + c4 + c5, t);
        },
        TypeKind::Union => {
            assert(out =~= c1 + c2 + (c3 + c4 + c5));
            lemma_contains_extend(c1, c2, c3 + c4 + c5, t);
        },
        TypeKind::NewType => {
            assert(out =~= (c1 + c2) + c3 + (c4 + c5));
            lemma_contains_extend(c1 + c2, c3, c4 + c5, t);
        },
        TypeKind::Enum => {
            assert(out =~= (c1 + c2 + c3) + c4 + c5);
            lemma_contains_extend(c1 + c2 + c3, c4, c5, t);
        },
        TypeKind::Alias => {
            assert(out =~= (c1 + c2 + c3 + c4) + c5 + Seq::<char>::empty());
            lemma_contains_extend(c1 + c2 + c3 + c4, c5, Seq::<char>::empty(), t);
        },
    }
}

/// Registering an identity a second time with a description of the same
/// kind leaves the output, in any backend, as the first registration left
/// it: the first description is rendered and the second never is.
pub proof fn lemma_output_idempotent(
    entries: Entries,
    id: TypeIdView,
    first: Type,
    second: Type,
    text: spec_fn(Type) -> Seq<char>,
)
    requires
        kind_of(first) == kind_of(second),
        may_register(entries, id, first),
        index_of(entries, id) is None,
    ensures
        output_text(registered(registered(entries, id, first), id, second), text) == output_text(
            registered(entries, id, first),
            text,
        ),
        contains(output_text(registered(entries, id, first), text), text(first)),
{
    lemma_registration_idempotent(entries, id, first, second);
    let after = registered(entries, id, first);
    assert(after[entries.len() as int].1 == first);
    lemma_entry_rendered(after, text, entries.len() as int);
}

/// Two root types that both contain one nested type, each registering the
/// nested type before itself, leave one entry for the nested type, and in
/// any backend the output holds that entry's definition.
pub proof fn lemma_shared_type_rendered_once(
    entries: Entries,
    nested: TypeIdView,
    nested_first: Type,
    first_root: TypeIdView,
    first: Type,
    nested_second: Type,
    second_root: TypeIdView,
    second: Type,
    text: spec_fn(Type) -> Seq<char>,
)
    requires
        ids_unique(entries),
        nested != first_root,
        nested != second_root,
    ensures
        ({
            let after = registered(
                registered(
                    registered(registered(entries, nested, nested_first), first_root, first),
                    nested,
                    nested_second,
                ),
                second_root,
                second,
            );
            &&& held_once(after, nested)
            &&& forall|k: int|
                0 <= k < after.len() && #[trigger] after[k].0 == nested ==> contains(
                    output_text(after, text),
                    text(after[k].1),
                )
        }),
{
    lemma_shared_type_registered_once(
        entries,
        nested,
        nested_first,
        first_root,
        first,
        nested_second,
        second_root,
        second,
    );
    let after = registered(
        registered(
            registered(registered(entries, nested, nested_first), first_root, first),
            nested,
            nested_second,
        ),
        second_root,
        second,
    );
    assert forall|k: int| 0 <= k < after.len() && #[trigger] after[k].0 == nested implies contains(
        output_text(after, text),
        text(after[k].1),
    ) by {
        lemma_entry_rendered(after, text, k);
    }
}

fn append_category<F: OutputFormat>(out: &mut String, registry: &TypeRegistry, kind: TypeKind)
    requires
        forall|i: int| 0 <= i < registry@.len() ==> F::supports(#[trigger] registry@[i].1),
    ensures
        final(out)@ == old(out)@ + category_text(
            registry@,
            kind,
            |t: Type| F::text_of(t),
            0,
        ),
{
    let ghost text = |t: Type| F::text_of(t);
    let ghost base = out@;
    let mut j = registry.len();
    assert(out@ =~= base + category_text(registry@, kind, text, j as int));
    while j > 0
        invariant
            j <= registry@.len(),
            text == (|t: Type| F::text_of(t)),
            forall|i: int| 0 <= i < registry@.len() ==> F::supports(#[trigger] registry@[i].1),
            out@ == base + category_text(registry@, kind, text, j as int),
        decreases j,
    {
        j = j - 1;
        let ty = registry.entry(j);
        if ty.kind() == kind {
            let piece = F::render_type(ty);
            out.append(piece.as_str());
        }
        assert(out@ =~= base + category_text(registry@, kind, text, j as int));
    }
}

/// Generates code for all the types in the registry with the backend `F`;
/// fails, naming the type, where `F` cannot express a registered type.
pub fn registry_to_output<F: OutputFormat>(registry: &TypeRegistry) -> (r: Result<
    String,
    Unsupported,
>)
    ensures
        r is Ok <==> forall|i: int| 0 <= i < registry@.len() ==> F::supports(#[trigger] registry@[i].1),
        r matches Ok(t) ==> t@ == output_text(registry@, |t: Type| F::text_of(t)),
        r matches Err(e) ==> exists|i: int|
            0 <= i < registry@.len() && !F::supports(#[trigger] registry@[i].1)
                && e.name@ == declared_name(registry@[i].1),
{
    let mut i: usize = 0;
    while i < registry.len()
        invariant
            i <= registry@.len(),
            forall|k: int| 0 <= k < i ==> F::supports(#[trigger] registry@[k].1),
        decreases registry@.len() - i,
    {
        let ty = registry.entry(i);
        if !F::supports_type(ty) {
            return Err(Unsupported { name: ty.type_ref().name });
        }
        i = i + 1;
    }
    let mut out = String::new();
    append_category::<F>(&mut out, registry, TypeKind::Struct);
    append_category::<F>(&mut out, registry, TypeKind::Union);
    append_category::<F>(&mut out, registry, TypeKind::NewType);
    append_category::<F>(&mut out, registry, TypeKind::Enum);
    append_category::<F>(&mut out, registry, TypeKind::Alias);
    assert(out@ =~= output_text(registry@, |t: Type| F::text_of(t)));
    Ok(out)
}

} // verus!
