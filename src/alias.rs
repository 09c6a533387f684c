//! Registering a type under a second name.

use vstd::prelude::*;

use crate::metadata::TypeMetadata;
use crate::registry::{declared_name, index_of, TypeRegistry};
use crate::type_id::TypeId;
use crate::types::Alias;

verus! {

/// Types that can be registered as aliases; every type with metadata can.
pub trait TypeAlias {
    /// Registers this type as an alias named `name`. Meant for type aliases
    /// rather than for types that describe themselves.
    ///
    /// Afterwards the registry holds what it held before, an alias is held
    /// under an alias identity, and any alias this call added is named
    /// `name`. Where the registry held no alias before, the call adds one.
    fn register_as_alias(name: &str, registry: &mut TypeRegistry)
        requires
            old(registry).wf(),
        ensures
            final(registry).wf(),
            old(registry)@.len() <= final(registry)@.len(),
            final(registry)@.subrange(0, old(registry)@.len() as int) == old(registry)@,
            exists|i: int|
                0 <= i < final(registry)@.len() && (#[trigger] final(registry)@[i]).0 is Alias
                    && final(registry)@[i].1 is Alias,
            forall|i: int|
                old(registry)@.len() <= i < final(registry)@.len()
                    && (#[trigger] final(registry)@[i]).1 is Alias
                    ==> declared_name(final(registry)@[i].1) == name@,
            (forall|i: int| 0 <= i < old(registry)@.len() ==> !((#[trigger] old(registry)@[i]).0 is Alias))
                ==> exists|i: int|
                old(registry)@.len() <= i < final(registry)@.len()
                    && (#[trigger] final(registry)@[i]).1 is Alias
                    && declared_name(final(registry)@[i].1) == name@,
    ;
}

impl<T: TypeMetadata + 'static> TypeAlias for T {
    /// Registers the alias under the alias identity of `T`, after what `T`
    /// itself needs.
    fn register_as_alias(name: &str, registry: &mut TypeRegistry) {
        let ghost before = registry@;
        let inner = T::metadata(registry);
        let ghost middle = registry@;
        let id = TypeId::for_alias::<T>();
        let details = Alias { name: name.to_string(), inner };
        proof {
            if let Some(j) = index_of(middle, id@) {
                assert(middle[j].0 == id@);
                assert(middle[j].1 is Alias);
                if j >= before.len() {
                    assert(!(middle[j].0 is Alias));
                }
                assert(j < before.len());
                assert(middle[j] == before[j]) by {
                    assert(middle.subrange(0, before.len() as int)[j] == middle[j]);
                }
            }
        }
        registry.register_alias(id, details);
        proof {
            let after = registry@;
            assert(after.subrange(0, before.len() as int) =~= before) by {
                assert(middle.subrange(0, before.len() as int) == before);
                assert forall|k: int| 0 <= k < before.len() implies after[k] == middle[k] by {}
            }
            match index_of(middle, id@) {
                Some(j) => {
                    assert(after[j].0 is Alias && after[j].1 is Alias);
                },
                None => {
                    let n = middle.len() as int;
                    assert(after[n].0 is Alias && after[n].1 is Alias);
                    assert(declared_name(after[n].1) == name@);
                },
            }
            assert forall|k: int| before.len() <= k < after.len() && (#[trigger] after[k]).1 is Alias
                implies declared_name(after[k].1) == name@ by {
                if k < middle.len() {
                    assert(after[k] == middle[k]);
                }
            }
        }
    }
}

} // verus!
