//! Generates type definitions and JSON marshalling code in other languages
//! (Go, TypeScript, Kotlin and Swift) from a registry of type descriptions.
//!
//! Types are described with the model in [`types`] and registered in a
//! [`TypeRegistry`], once per [`TypeId`]; [`registry_to_output`] then writes
//! every registered type out with one backend. The output holds no package
//! or import header: callers add their own.

pub mod alias;
pub mod case;
pub mod fidelity;
pub mod go;
pub mod inspect;
pub mod kotlin;
pub mod metadata;
pub mod output;
pub mod registry;
pub mod swift;
pub mod tabify;
pub mod text;
pub mod type_id;
pub mod types;
pub mod typescript;
pub mod wire;

pub use alias::TypeAlias;
pub use go::GoType;
pub use inspect::Inspect;
pub use kotlin::kotlin_type::KotlinType;
pub use metadata::TypeMetadata;
pub use output::{registry_to_output, OutputFormat, Unsupported};
pub use registry::{Type, TypeKind, TypeRegistry};
pub use swift::swift_type::SwiftType;
pub use type_id::TypeId;
pub use typescript::TypeScriptType;
