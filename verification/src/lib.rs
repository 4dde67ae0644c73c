//! Load application-defined record types from JSON bytes through a runtime
//! type registry.
//!
//! The library models the decode pipeline of a reflective asset loader:
//! bytes are parsed into an untyped structured value, the target type's
//! descriptor is looked up in a registry, a schema-driven deserialization
//! pass turns the structured value into a reflected value, and a final
//! downcast checks that the reflected value carries the target's identity.

mod loader;
mod parse;
mod plugin;
mod registry;
mod schema;
mod value;

pub use loader::{
    decode_post, downcast, lemma_decode_deterministic, lemma_decode_follows_schema,
    lemma_malformed_parse_error, lemma_missing_field_fails, lemma_unregistered, results_agree,
    ReflectLoaderError, ReflectionAssetLoader,
};
pub use parse::json_parse;
pub use plugin::JsonReflectAssetPlugin;
pub use registry::{reg_lookup, RegistryEntry, TypeRegistry};
pub use schema::{
    field_ok, first_field_mismatch, first_unknown_key, lemma_mismatch_iff_matches, matches_schema,
    mismatch_of, reflect_deserialize, reflect_result, reflected_fields, scalar_of, schema_has,
    FieldKind, FieldSchema, FieldValue, ReflectedValue, SchemaError, TypeDescriptor,
};
pub use value::{obj_lookup, JsonValue};
