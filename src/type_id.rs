use vstd::prelude::*;

verus! {

#[verifier::external_type_specification]
#[verifier::external_body]
pub struct ExStdTypeId(std::any::TypeId);

/// Relies on `<std::any::TypeId as PartialEq>::eq`: two ids compare equal
/// exactly when they identify the same type.
#[verifier::external_body]
fn std_type_id_eq(a: &std::any::TypeId, b: &std::any::TypeId) -> (r: bool)
    ensures
        r == (*a == *b),
{
    *a == *b
}

/// Relies on `<std::any::TypeId as Clone>::clone`: the id is `Copy`, so its
/// clone is the same id.
pub assume_specification[ <std::any::TypeId as Clone>::clone ](x: &std::any::TypeId) -> (r:
    std::any::TypeId)
    ensures
        r == *x,
;

/// Relies on `std::any::TypeId::of`, the identity of the type `T`.
#[verifier::external_body]
fn std_type_id_of<T: ?Sized + 'static>() -> std::any::TypeId {
    std::any::TypeId::of::<T>()
}

/// What a `TypeId` identifies: a type, or one variant of an enum type.
pub ghost enum TypeIdView {
    Type(std::any::TypeId),
    Variant(std::any::TypeId, Seq<char>),
    Alias(std::any::TypeId),
}

/// A type identifier, used to deduplicate types in the output.
#[derive(Debug, Clone, Eq, Hash)]
pub struct TypeId {
    inner: TypeIdInner,
}

#[derive(Debug, Clone, PartialEq, Eq, Hash)]
enum TypeIdInner {
    Type(std::any::TypeId),
    Variant { parent_enum: std::any::TypeId, variant_name: String },
    Alias(std::any::TypeId),
}

impl View for TypeId {
    type V = TypeIdView;

    closed spec fn view(&self) -> TypeIdView {
        match self.inner {
            TypeIdInner::Type(t) => TypeIdView::Type(t),
            TypeIdInner::Variant { parent_enum, variant_name } => TypeIdView::Variant(
                parent_enum,
                variant_name@,
            ),
            TypeIdInner::Alias(t) => TypeIdView::Alias(t),
        }
    }
}

impl TypeId {
    /// Constructs a `TypeId` for a given type.
    pub fn for_type<T: ?Sized + 'static>() -> (r: TypeId)
        ensures
            r@ is Type,
    {
        TypeId { inner: TypeIdInner::Type(std_type_id_of::<T>()) }
    }

    /// Constructs a `TypeId` for a variant of an enum type: the output needs
    /// types for these that do not exist on their own.
    pub fn for_variant<T: ?Sized + 'static>(variant_name: &str) -> (r: TypeId)
        ensures
            r@ matches TypeIdView::Variant(_, name) && name == variant_name@,
    {
        TypeId {
            inner: TypeIdInner::Variant {
                parent_enum: std_type_id_of::<T>(),
                variant_name: variant_name.to_string(),
            },
        }
    }

    /// Constructs a `TypeId` for an alias of a given type: aliases have
    /// identities of their own, apart from the type they name.
    pub fn for_alias<T: ?Sized + 'static>() -> (r: TypeId)
        ensures
            r@ is Alias,
    {
        TypeId { inner: TypeIdInner::Alias(std_type_id_of::<T>()) }
    }

    /// Whether two ids identify the same thing.
    pub fn same_as(&self, other: &TypeId) -> (r: bool)
        ensures
            r == (self@ == other@),
    {
        match (&self.inner, &other.inner) {
            (TypeIdInner::Type(a), TypeIdInner::Type(b)) => std_type_id_eq(a, b),
            (
                TypeIdInner::Variant { parent_enum: a, variant_name: x },
                TypeIdInner::Variant { parent_enum: b, variant_name: y },
            ) => std_type_id_eq(a, b) && x.eq(y),
            (TypeIdInner::Alias(a), TypeIdInner::Alias(b)) => std_type_id_eq(a, b),
            _ => false,
        }
    }
}

impl PartialEq for TypeId {
    fn eq(&self, other: &TypeId) -> (r: bool) {
        self.same_as(other)
    }
}

impl vstd::std_specs::cmp::PartialEqSpecImpl for TypeId {
    open spec fn obeys_eq_spec() -> bool {
        true
    }

    open spec fn eq_spec(&self, other: &TypeId) -> bool {
        self@ == other@
    }
}

} // verus!
