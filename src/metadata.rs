//! Describing types to the registry: each type that can be written out says
//! how to register itself and what field type stands for it.

use vstd::prelude::*;

use crate::registry::{
    appends_no_alias, lemma_appends_no_alias_refl, lemma_appends_no_alias_trans, TypeRegistry,
};
use crate::types::{FieldType, Primitive};

verus! {

#[verifier::external_type_specification]
#[verifier::external_body]
pub struct ExUuid(uuid::Uuid);

/// Metadata about a type, used to generate versions of it in other
/// languages.
pub trait TypeMetadata {
    /// Registers this type and the types it contains, and returns the field
    /// type that refers to it.
    fn metadata(registry: &mut TypeRegistry) -> (r: FieldType)
        requires
            old(registry).wf(),
        ensures
            final(registry).wf(),
            appends_no_alias(old(registry)@, final(registry)@),
    ;
}

impl<T: TypeMetadata> TypeMetadata for Vec<T> {
    fn metadata(registry: &mut TypeRegistry) -> (r: FieldType)
        ensures
            r is List,
    {
        FieldType::List(Box::new(T::metadata(registry)))
    }
}

impl<T: TypeMetadata> TypeMetadata for Option<T> {
    fn metadata(registry: &mut TypeRegistry) -> (r: FieldType)
        ensures
            r is Optional,
    {
        FieldType::Optional(Box::new(T::metadata(registry)))
    }
}

impl<K: TypeMetadata, V: TypeMetadata> TypeMetadata for std::collections::HashMap<K, V> {
    fn metadata(registry: &mut TypeRegistry) -> (r: FieldType)
        ensures
            r is Dictionary,
    {
        let ghost start = registry@;
        let key = Box::new(K::metadata(registry));
        let ghost middle = registry@;
        let value = Box::new(V::metadata(registry));
        proof {
            lemma_appends_no_alias_trans(start, middle, registry@);
        }
        FieldType::Dictionary { key, value }
    }
}

impl TypeMetadata for String {
    fn metadata(registry: &mut TypeRegistry) -> (r: FieldType)
        ensures
            r == FieldType::Primitive(Primitive::String),
            *final(registry) == *old(registry),
    {
        proof {
            lemma_appends_no_alias_refl(registry@);
        }
        FieldType::Primitive(Primitive::String)
    }
}

impl TypeMetadata for str {
    fn metadata(registry: &mut TypeRegistry) -> (r: FieldType)
        ensures
            r == FieldType::Primitive(Primitive::String),
            *final(registry) == *old(registry),
    {
        proof {
            lemma_appends_no_alias_refl(registry@);
        }
        FieldType::Primitive(Primitive::String)
    }
}

impl TypeMetadata for bool {
    fn metadata(registry: &mut TypeRegistry) -> (r: FieldType)
        ensures
            r == FieldType::Primitive(Primitive::Bool),
            *final(registry) == *old(registry),
    {
        proof {
            lemma_appends_no_alias_refl(registry@);
        }
        FieldType::Primitive(Primitive::Bool)
    }
}

impl TypeMetadata for uuid::Uuid {
    fn metadata(registry: &mut TypeRegistry) -> (r: FieldType)
        ensures
            r == FieldType::Primitive(Primitive::String),
            *final(registry) == *old(registry),
    {
        proof {
            lemma_appends_no_alias_refl(registry@);
        }
        FieldType::Primitive(Primitive::String)
    }
}

impl TypeMetadata for i8 {
    fn metadata(registry: &mut TypeRegistry) -> (r: FieldType)
        ensures
            r == FieldType::Primitive(Primitive::Int),
            *final(registry) == *old(registry),
    {
        proof {
            lemma_appends_no_alias_refl(registry@);
        }
        FieldType::Primitive(Primitive::Int)
    }
}

impl TypeMetadata for i16 {
    fn metadata(registry: &mut TypeRegistry) -> (r: FieldType)
        ensures
            r == FieldType::Primitive(Primitive::Int),
            *final(registry) == *old(registry),
    {
        proof {
            lemma_appends_no_alias_refl(registry@);
        }
        FieldType::Primitive(Primitive::Int)
    }
}

impl TypeMetadata for i32 {
    fn metadata(registry: &mut TypeRegistry) -> (r: FieldType)
        ensures
            r == FieldType::Primitive(Primitive::Int),
            *final(registry) == *old(registry),
    {
        proof {
            lemma_appends_no_alias_refl(registry@);
        }
        FieldType::Primitive(Primitive::Int)
    }
}

impl TypeMetadata for i64 {
    fn metadata(registry: &mut TypeRegistry) -> (r: FieldType)
        ensures
            r == FieldType::Primitive(Primitive::Int),
            *final(registry) == *old(registry),
    {
        proof {
            lemma_appends_no_alias_refl(registry@);
        }
        FieldType::Primitive(Primitive::Int)
    }
}

impl TypeMetadata for i128 {
    fn metadata(registry: &mut TypeRegistry) -> (r: FieldType)
        ensures
            r == FieldType::Primitive(Primitive::Int),
            *final(registry) == *old(registry),
    {
        proof {
            lemma_appends_no_alias_refl(registry@);
        }
        FieldType::Primitive(Primitive::Int)
    }
}

impl TypeMetadata for u8 {
    fn metadata(registry: &mut TypeRegistry) -> (r: FieldType)
        ensures
            r == FieldType::Primitive(Primitive::Int),
            *final(registry) == *old(registry),
    {
        proof {
            lemma_appends_no_alias_refl(registry@);
        }
        FieldType::Primitive(Primitive::Int)
    }
}

impl TypeMetadata for u16 {
    fn metadata(registry: &mut TypeRegistry) -> (r: FieldType)
        ensures
            r == FieldType::Primitive(Primitive::Int),
            *final(registry) == *old(registry),
    {
        proof {
            lemma_appends_no_alias_refl(registry@);
        }
        FieldType::Primitive(Primitive::Int)
    }
}

impl TypeMetadata for u32 {
    fn metadata(registry: &mut TypeRegistry) -> (r: FieldType)
        ensures
            r == FieldType::Primitive(Primitive::Int),
            *final(registry) == *old(registry),
    {
        proof {
            lemma_appends_no_alias_refl(registry@);
        }
        FieldType::Primitive(Primitive::Int)
    }
}

impl TypeMetadata for u64 {
    fn metadata(registry: &mut TypeRegistry) -> (r: FieldType)
        ensures
            r == FieldType::Primitive(Primitive::Int),
            *final(registry) == *old(registry),
    {
        proof {
            lemma_appends_no_alias_refl(registry@);
        }
        FieldType::Primitive(Primitive::Int)
    }
}

impl TypeMetadata for u128 {
    fn metadata(registry: &mut TypeRegistry) -> (r: FieldType)
        ensures
            r == FieldType::Primitive(Primitive::Int),
            *final(registry) == *old(registry),
    {
        proof {
            lemma_appends_no_alias_refl(registry@);
        }
        FieldType::Primitive(Primitive::Int)
    }
}

} // verus!
