//! The registry of type descriptions: one entry per type identity, kept in
//! the order of registration.

use vstd::prelude::*;

use crate::type_id::{TypeId, TypeIdView};
use crate::types::{Alias, Enum, NewType, Struct, TypeRef, Union};

verus! {

/// A registered type description.
#[derive(Debug)]
pub enum Type {
    /// A struct.
    Struct(Struct),
    /// A data-less enum.
    Enum(Enum),
    /// A union.
    Union(Union),
    /// A newtype.
    NewType(NewType),
    /// A type alias.
    Alias(Alias),
}

/// The kind of a registered type.
#[derive(Debug, Clone, Copy, PartialEq, Eq, Structural)]
pub enum TypeKind {
    /// A struct.
    Struct,
    /// A data-less enum.
    Enum,
    /// A union.
    Union,
    /// A newtype.
    NewType,
    /// A type alias.
    Alias,
}

/// The kind of `ty`.
pub open spec fn kind_of(ty: Type) -> TypeKind {
    match ty {
        Type::Struct(_) => TypeKind::Struct,
        Type::Enum(_) => TypeKind::Enum,
        Type::Union(_) => TypeKind::Union,
        Type::NewType(_) => TypeKind::NewType,
        Type::Alias(_) => TypeKind::Alias,
    }
}

/// The name that `ty` declares.
pub open spec fn declared_name(ty: Type) -> Seq<char> {
    match ty {
        Type::Struct(s) => s.name@,
        Type::Enum(e) => e.name@,
        Type::Union(u) => u.name@,
        Type::NewType(n) => n.name@,
        Type::Alias(a) => a.name@,
    }
}

impl Type {
    /// A reference to this type by its name.
    pub fn type_ref(&self) -> (r: TypeRef)
        ensures
            r.name@ == declared_name(*self),
    {
        match self {
            Type::Struct(st) => TypeRef { name: st.name.clone() },
            Type::Enum(en) => TypeRef { name: en.name.clone() },
            Type::Union(un) => TypeRef { name: un.name.clone() },
            Type::NewType(nt) => TypeRef { name: nt.name.clone() },
            Type::Alias(al) => TypeRef { name: al.name.clone() },
        }
    }

    /// Whether `self` and `other` are the same kind of type.
    pub fn same_kind(&self, other: &Type) -> (r: bool)
        ensures
            r == (kind_of(*self) == kind_of(*other)),
    {
        match (self, other) {
            (Type::Struct(_), Type::Struct(_)) => true,
            (Type::Enum(_), Type::Enum(_)) => true,
            (Type::Union(_), Type::Union(_)) => true,
            (Type::NewType(_), Type::NewType(_)) => true,
            (Type::Alias(_), Type::Alias(_)) => true,
            _ => false,
        }
    }

    /// The kind of this type.
    pub fn kind(&self) -> (r: TypeKind)
        ensures
            r == kind_of(*self),
    {
        match self {
            Type::Struct(_) => TypeKind::Struct,
            Type::Enum(_) => TypeKind::Enum,
            Type::Union(_) => TypeKind::Union,
            Type::NewType(_) => TypeKind::NewType,
            Type::Alias(_) => TypeKind::Alias,
        }
    }
}

/// One registered entry: an identity and the description stored for it.
#[derive(Debug)]
pub struct Entry {
    pub id: TypeId,
    pub ty: Type,
}

/// The registry's content: the identities and descriptions, in order of
/// registration.
pub type Entries = Seq<(TypeIdView, Type)>;

/// The index of the entry registered under `id`, if there is one.
pub open spec fn index_of(entries: Entries, id: TypeIdView) -> Option<int> {
    if exists|i: int| 0 <= i < entries.len() && #[trigger] entries[i].0 == id {
        Some(choose|i: int| 0 <= i < entries.len() && #[trigger] entries[i].0 == id)
    } else {
        None
    }
}

/// No identity is registered twice.
pub open spec fn ids_unique(entries: Entries) -> bool {
    forall|i: int, j: int|
        0 <= i < entries.len() && 0 <= j < entries.len() && i != j ==> #[trigger] entries[i].0
            != #[trigger] entries[j].0
}

/// Alias identities hold aliases, and aliases are held under alias
/// identities.
pub open spec fn alias_ids_match(entries: Entries) -> bool {
    forall|i: int| 0 <= i < entries.len() ==> ((#[trigger] entries[i]).0 is Alias <==> entries[i].1 is Alias)
}

/// Whether `ty` may be registered under `id`: an alias goes under an alias
/// identity and nothing else does, and the identity is new or held by a
/// description of the same kind.
pub open spec fn may_register(entries: Entries, id: TypeIdView, ty: Type) -> bool {
    &&& (id is Alias <==> ty is Alias)
    &&& match index_of(entries, id) {
        Some(i) => kind_of(entries[i].1) == kind_of(ty),
        None => true,
    }
}

/// `after` is `before` with entries added at the end, none of them under an
/// alias identity.
pub open spec fn appends_no_alias(before: Entries, after: Entries) -> bool {
    &&& before.len() <= after.len()
    &&& after.subrange(0, before.len() as int) == before
    &&& forall|i: int| before.len() <= i < after.len() ==> !((#[trigger] after[i]).0 is Alias)
}

pub proof fn lemma_appends_no_alias_refl(e: Entries)
    ensures
        appends_no_alias(e, e),
{
    assert(e.subrange(0, e.len() as int) =~= e);
}

pub proof fn lemma_appends_no_alias_trans(a: Entries, b: Entries, c: Entries)
    requires
        appends_no_alias(a, b),
        appends_no_alias(b, c),
    ensures
        appends_no_alias(a, c),
{
    assert(c.subrange(0, a.len() as int) =~= c.subrange(0, b.len() as int).subrange(0, a.len() as int));
    assert forall|i: int| a.len() <= i < c.len() implies !((#[trigger] c[i]).0 is Alias) by {
        if i < b.len() {
            assert(c[i] == c.subrange(0, b.len() as int)[i]);
            assert(!(b[i].0 is Alias));
        }
    }
}

/// The content after registering `ty` under `id`: a new identity is added at
/// the end; a known one leaves the content as it was.
pub open spec fn registered(entries: Entries, id: TypeIdView, ty: Type) -> Entries {
    match index_of(entries, id) {
        Some(_) => entries,
        None => entries.push((id, ty)),
    }
}

/// The name that registering `ty` under `id` hands back: that of the entry
/// already held for `id`, or that of `ty`.
pub open spec fn registered_name(entries: Entries, id: TypeIdView, ty: Type) -> Seq<char> {
    match index_of(entries, id) {
        Some(i) => declared_name(entries[i].1),
        None => declared_name(ty),
    }
}

/// A registry of type descriptions, filled by registering types and then
/// used to output them in other languages.
#[derive(Debug)]
pub struct TypeRegistry {
    entries: Vec<Entry>,
}

impl View for TypeRegistry {
    type V = Entries;

    closed spec fn view(&self) -> Entries {
        self.entries@.map_values(|e: Entry| (e.id@, e.ty))
    }
}

impl TypeRegistry {
    /// The registry holds each identity once.
    pub open spec fn wf(&self) -> bool {
        ids_unique(self@) && alias_ids_match(self@)
    }

    /// Constructs an empty registry.
    pub fn new() -> (r: TypeRegistry)
        ensures
            r@ == Seq::<(TypeIdView, Type)>::empty(),
            r.wf(),
    {
        let r = TypeRegistry { entries: Vec::new() };
        assert(r@ =~= Seq::<(TypeIdView, Type)>::empty());
        r
    }

    /// The number of registered types.
    pub fn len(&self) -> (r: usize)
        ensures
            r == self@.len(),
    {
        self.entries.len()
    }

    /// The description registered at position `i`.
    pub fn entry(&self, i: usize) -> (r: &Type)
        requires
            i < self@.len(),
        ensures
            *r == self@[i as int].1,
    {
        &self.entries[i].ty
    }

    /// The position of the entry registered under `id`.
    pub fn position(&self, id: &TypeId) -> (r: Option<usize>)
        ensures
            r matches Some(i) ==> i < self@.len() && self@[i as int].0 == id@,
            r is None ==> index_of(self@, id@) is None,
            r matches Some(i) ==> self.wf() ==> index_of(self@, id@) == Some(i as int),
    {
        let mut i: usize = 0;
        while i < self.entries.len()
            invariant
                i <= self.entries.len(),
                forall|j: int| 0 <= j < i ==> #[trigger] self@[j].0 != id@,
            decreases self.entries.len() - i,
        {
            if self.entries[i].id.same_as(id) {
                proof {
                    assert(self@[i as int].0 == id@);
                    if self.wf() {
                        let k = index_of(self@, id@)->0;
                        assert(self@[k].0 == id@);
                    }
                }
                return Some(i);
            }
            i = i + 1;
        }
        None
    }

    /// The kind of the type registered under `id`, if any.
    pub fn kind_of(&self, id: &TypeId) -> (r: Option<TypeKind>)
        requires
            self.wf(),
        ensures
            r is None <==> index_of(self@, id@) is None,
            r matches Some(k) ==> k == kind_of(self@[index_of(self@, id@)->0].1),
    {
        match self.position(id) {
            Some(i) => Some(self.entries[i].ty.kind()),
            None => None,
        }
    }

    fn register_type(&mut self, id: TypeId, ty: Type) -> (r: TypeRef)
        requires
            old(self).wf(),
            may_register(old(self)@, id@, ty),
        ensures
            final(self).wf(),
            final(self)@ == registered(old(self)@, id@, ty),
            r.name@ == registered_name(old(self)@, id@, ty),
    {
        match self.position(&id) {
            Some(i) => self.entries[i].ty.type_ref(),
            None => {
                let type_ref = ty.type_ref();
                let ghost old_view = self@;
                self.entries.push(Entry { id, ty });
                assert(self@ =~= old_view.push((id@, ty)));
                type_ref
            },
        }
    }

    /// Registers an alias, under an alias identity.
    pub fn register_alias(&mut self, id: TypeId, details: Alias) -> (r: TypeRef)
        requires
            old(self).wf(),
            may_register(old(self)@, id@, Type::Alias(details)),
        ensures
            final(self).wf(),
            final(self)@ == registered(old(self)@, id@, Type::Alias(details)),
            r.name@ == registered_name(old(self)@, id@, Type::Alias(details)),
    {
        self.register_type(id, Type::Alias(details))
    }

    /// Registers a struct.
    pub fn register_struct(&mut self, id: TypeId, details: Struct) -> (r: TypeRef)
        requires
            old(self).wf(),
            may_register(old(self)@, id@, Type::Struct(details)),
        ensures
            final(self).wf(),
            final(self)@ == registered(old(self)@, id@, Type::Struct(details)),
            r.name@ == registered_name(old(self)@, id@, Type::Struct(details)),
    {
        self.register_type(id, Type::Struct(details))
    }

    /// Registers a newtype.
    pub fn register_newtype(&mut self, id: TypeId, details: NewType) -> (r: TypeRef)
        requires
            old(self).wf(),
            may_register(old(self)@, id@, Type::NewType(details)),
        ensures
            final(self).wf(),
            final(self)@ == registered(old(self)@, id@, Type::NewType(details)),
            r.name@ == registered_name(old(self)@, id@, Type::NewType(details)),
    {
        self.register_type(id, Type::NewType(details))
    }

    /// Registers an enum.
    pub fn register_enum(&mut self, id: TypeId, details: Enum) -> (r: TypeRef)
        requires
            old(self).wf(),
            may_register(old(self)@, id@, Type::Enum(details)),
        ensures
            final(self).wf(),
            final(self)@ == registered(old(self)@, id@, Type::Enum(details)),
            r.name@ == registered_name(old(self)@, id@, Type::Enum(details)),
    {
        self.register_type(id, Type::Enum(details))
    }

    /// Registers a union.
    pub fn register_union(&mut self, id: TypeId, details: Union) -> (r: TypeRef)
        requires
            old(self).wf(),
            may_register(old(self)@, id@, Type::Union(details)),
        ensures
            final(self).wf(),
            final(self)@ == registered(old(self)@, id@, Type::Union(details)),
            r.name@ == registered_name(old(self)@, id@, Type::Union(details)),
    {
        self.register_type(id, Type::Union(details))
    }
}

/// Registering an identity a second time, with a description of the same
/// kind, leaves the registry as the first registration left it: one entry,
/// one place in the output, and the same name handed back.
pub proof fn lemma_registration_idempotent(entries: Entries, id: TypeIdView, first: Type, second: Type)
    requires
        kind_of(first) == kind_of(second),
        may_register(entries, id, first),
    ensures
        may_register(registered(entries, id, first), id, second),
        registered(registered(entries, id, first), id, second) == registered(entries, id, first),
        registered_name(registered(entries, id, first), id, second) == registered_name(
            entries,
            id,
            first,
        ),
{
    let after = registered(entries, id, first);
    match index_of(entries, id) {
        Some(i) => {},
        None => {
            let n = entries.len() as int;
            assert(after[n].0 == id);
            let k = index_of(after, id)->0;
            assert(0 <= k < after.len() && after[k].0 == id);
            if k < n {
                assert(entries[k].0 == id);
            }
        },
    }
}

/// Registering keeps every identity at one entry, and afterwards the
/// identity just registered is held by exactly one entry, however many
/// other types reached it before.
pub proof fn lemma_registration_keeps_one_entry(entries: Entries, id: TypeIdView, ty: Type)
    requires
        ids_unique(entries),
    ensures
        ids_unique(registered(entries, id, ty)),
        held_once(registered(entries, id, ty), id),
{
    let after = registered(entries, id, ty);
    match index_of(entries, id) {
        Some(i) => {
            assert(after[i].0 == id);
        },
        None => {
            assert(after[entries.len() as int].0 == id);
        },
    }
}

/// Exactly one entry is held for `id`.
pub open spec fn held_once(entries: Entries, id: TypeIdView) -> bool {
    &&& exists|i: int| 0 <= i < entries.len() && #[trigger] entries[i].0 == id
    &&& forall|i: int, j: int|
        0 <= i < entries.len() && 0 <= j < entries.len() && #[trigger] entries[i].0 == id
            && #[trigger] entries[j].0 == id ==> i == j
}

/// Registering another identity leaves an identity held once still held
/// once.
pub proof fn lemma_other_registration_keeps_held_once(
    entries: Entries,
    id: TypeIdView,
    other: TypeIdView,
    ty: Type,
)
    requires
        held_once(entries, id),
        id != other,
    ensures
        held_once(registered(entries, other, ty), id),
{
    let after = registered(entries, other, ty);
    let i = choose|i: int| 0 <= i < entries.len() && #[trigger] entries[i].0 == id;
    assert(after[i].0 == id);
}

/// Two root types that both contain one nested type, each registering the
/// nested type before itself, leave exactly one entry for the nested type,
/// and so one definition of it in the output.
pub proof fn lemma_shared_type_registered_once(
    entries: Entries,
    nested: TypeIdView,
    nested_first: Type,
    first_root: TypeIdView,
    first: Type,
    nested_second: Type,
    second_root: TypeIdView,
    second: Type,
)
    requires
        ids_unique(entries),
        nested != first_root,
        nested != second_root,
    ensures
        held_once(
            registered(
                registered(
                    registered(registered(entries, nested, nested_first), first_root, first),
                    nested,
                    nested_second,
                ),
                second_root,
                second,
            ),
            nested,
        ),
{
    let e1 = registered(entries, nested, nested_first);
    lemma_registration_keeps_one_entry(entries, nested, nested_first);
    let e2 = registered(e1, first_root, first);
    lemma_other_registration_keeps_held_once(e1, nested, first_root, first);
    lemma_registration_keeps_one_entry(e1, first_root, first);
    let e3 = registered(e2, nested, nested_second);
    lemma_registration_keeps_one_entry(e2, nested, nested_second);
    lemma_other_registration_keeps_held_once(e3, nested, second_root, second);
}

} // verus!
