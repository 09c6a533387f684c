//! Field types of the standard containers, built from those of their
//! contents.

use vstd::prelude::*;

use crate::registry::TypeRegistry;
use crate::types::FieldType;

verus! {

/// Types that can report their field type.
pub trait Inspect {
    /// Registers what this type needs and returns its field type.
    fn info(registry: &mut TypeRegistry) -> (r: FieldType)
        requires
            old(registry).wf(),
        ensures
            final(registry).wf(),
    ;
}

impl<T: Inspect> Inspect for Vec<T> {
    fn info(registry: &mut TypeRegistry) -> (r: FieldType)
        ensures
            r is List,
    {
        FieldType::List(Box::new(T::info(registry)))
    }
}

impl<T: Inspect> Inspect for Option<T> {
    fn info(registry: &mut TypeRegistry) -> (r: FieldType)
        ensures
            r is Optional,
    {
        FieldType::Optional(Box::new(T::info(registry)))
    }
}

impl<K: Inspect, V: Inspect> Inspect for std::collections::HashMap<K, V> {
    fn info(registry: &mut TypeRegistry) -> (r: FieldType)
        ensures
            r is Dictionary,
    {
        let key = Box::new(K::info(registry));
        let value = Box::new(V::info(registry));
        FieldType::Dictionary { key, value }
    }
}

} // verus!
