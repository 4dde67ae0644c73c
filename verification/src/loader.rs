//! The reflective decoder: one linear pipeline from raw bytes to a reflected
//! value of the target type — parse, look the target up, deserialize against
//! its layout, downcast — each stage gating the next, the first failure
//! terminal for the call.

use vstd::prelude::*;
use vstd::slice::slice_to_vec;

use crate::parse::{json_parse, parse_json};
use crate::registry::{reg_lookup, RegistryEntry, TypeRegistry};
use crate::schema::{
    matches_schema, mismatch_of, reflect_deserialize, reflect_result, schema_has, ReflectedValue,
    SchemaError,
};
use crate::value::{obj_lookup, JsonValue};

verus! {

/// The terminal outcome of one failed load. Every kind is surfaced to the
/// host as that load's failure; none aborts the process.
#[derive(Debug, Clone, PartialEq)]
pub enum ReflectLoaderError {
    /// The input stream could not be read to completion; carries the I/O
    /// failure's description. Raised by the host that reads the stream,
    /// never by `load` itself, which starts from fully read bytes.
    Io(String),
    /// The bytes are not well-formed structured data; carries the parser's
    /// detail.
    JsonError(String),
    /// The target type has no entry in the registry: a configuration error,
    /// never silently skipped.
    TypeNotRegistered,
    /// The structured value's shape does not match the target's layout.
    SchemaMismatch(SchemaError),
    /// The reflected value's identity is not the target type's.
    FailedToDowncast,
}

/// Decoder for one target type: bound to that type's identifier and to the
/// file extensions it handles. It holds no other state, so repeated and
/// concurrent calls have nothing to coordinate.
#[derive(Debug, Clone)]
pub struct ReflectionAssetLoader {
    target: u64,
    extensions: Vec<&'static str>,
}

/// Everything `load` returns, as a function of the target's identifier, the
/// input bytes and the registry's entries: which stage of the pipeline fails
/// on which input, and the exact value a full pass yields.
pub open spec fn decode_post(
    r: Result<ReflectedValue, ReflectLoaderError>,
    target: u64,
    bytes: Seq<u8>,
    reg: Seq<RegistryEntry>,
) -> bool {
    match json_parse(bytes) {
        None => r matches Err(ReflectLoaderError::JsonError(_)),
        Some(v) => match reg_lookup(reg, target) {
            None => r == Err::<ReflectedValue, ReflectLoaderError>(
                ReflectLoaderError::TypeNotRegistered,
            ),
            Some(d) => {
                if !matches_schema(d.fields@, v) {
                    r == Err::<ReflectedValue, ReflectLoaderError>(
                        ReflectLoaderError::SchemaMismatch(mismatch_of(d.fields@, v).unwrap()),
                    )
                } else if d.id != target {
                    r == Err::<ReflectedValue, ReflectLoaderError>(
                        ReflectLoaderError::FailedToDowncast,
                    )
                } else {
                    r matches Ok(rv) && rv.type_id == target && rv.fields@ == reflect_result(d, v)
                }
            },
        },
    }
}

/// Convert a reflected value into the target type: succeeds exactly when the
/// value's identity is the target's, and hands the value back unchanged.
pub fn downcast(value: ReflectedValue, target: u64) -> (r: Result<
    ReflectedValue,
    ReflectLoaderError,
>)
    ensures
        value.type_id == target ==> r == Ok::<ReflectedValue, ReflectLoaderError>(value),
        value.type_id != target ==> r == Err::<ReflectedValue, ReflectLoaderError>(
            ReflectLoaderError::FailedToDowncast,
        ),
{
    if value.type_id == target {
        Ok(value)
    } else {
        Err(ReflectLoaderError::FailedToDowncast)
    }
}

impl ReflectionAssetLoader {
    /// The identifier of the type this decoder loads.
    pub closed spec fn spec_target(&self) -> u64 {
        self.target
    }

    /// The extension list this decoder was configured with.
    pub closed spec fn spec_extensions(&self) -> Seq<&'static str> {
        self.extensions@
    }

    /// A decoder for the type identified by `target`, handling files with
    /// the given extensions.
    pub fn new(target: u64, extensions: &[&'static str]) -> (r: Self)
        ensures
            r.spec_target() == target,
            r.spec_extensions() == extensions@,
    {
        ReflectionAssetLoader { target, extensions: slice_to_vec(extensions) }
    }

    /// Decode one fully read byte buffer into a reflected value of the
    /// target type, using the registry's current entries. `decode_post`
    /// states the outcome of every stage; no partial value and no default
    /// survives a failure.
    pub fn load(&self, bytes: &[u8], registry: &TypeRegistry) -> (r: Result<
        ReflectedValue,
        ReflectLoaderError,
    >)
        ensures
            decode_post(r, self.spec_target(), bytes@, registry@),
    {
        let parsed = match parse_json(bytes) {
            Ok(v) => v,
            Err(msg) => { return Err(ReflectLoaderError::JsonError(msg)); },
        };
        let descriptor = match registry.get(self.target) {
            Some(d) => d,
            None => { return Err(ReflectLoaderError::TypeNotRegistered); },
        };
        let reflected = match reflect_deserialize(descriptor, &parsed) {
            Ok(rv) => rv,
            Err(e) => { return Err(ReflectLoaderError::SchemaMismatch(e)); },
        };
        downcast(reflected, self.target)
    }

    /// The configured extension list, unchanged: a pure accessor.
    pub fn extensions(&self) -> (r: &[&'static str])
        ensures
            r@ == self.spec_extensions(),
    {
        self.extensions.as_slice()
    }
}

/// Results that agree up to the error detail strings: equal values on
/// success, the same kind of failure otherwise.
pub open spec fn results_agree(
    r1: Result<ReflectedValue, ReflectLoaderError>,
    r2: Result<ReflectedValue, ReflectLoaderError>,
) -> bool {
    match (r1, r2) {
        (Ok(a), Ok(b)) => a.type_id == b.type_id && a.fields@ == b.fields@,
        (Err(e1), Err(e2)) => match (e1, e2) {
            (ReflectLoaderError::Io(_), ReflectLoaderError::Io(_)) => true,
            (ReflectLoaderError::JsonError(_), ReflectLoaderError::JsonError(_)) => true,
            (ReflectLoaderError::TypeNotRegistered, ReflectLoaderError::TypeNotRegistered) => true,
            (ReflectLoaderError::SchemaMismatch(a), ReflectLoaderError::SchemaMismatch(b)) => a
                == b,
            (ReflectLoaderError::FailedToDowncast, ReflectLoaderError::FailedToDowncast) => true,
            _ => false,
        },
        _ => false,
    }
}

/// A buffer that is not well-formed structured data decodes to a parse
/// error — never to an I/O error, a downcast failure, or a value.
pub proof fn lemma_malformed_parse_error(
    r: Result<ReflectedValue, ReflectLoaderError>,
    target: u64,
    bytes: Seq<u8>,
    reg: Seq<RegistryEntry>,
)
    requires
        decode_post(r, target, bytes, reg),
        json_parse(bytes) is None,
    ensures
        r matches Err(ReflectLoaderError::JsonError(_)),
{
}

/// A well-formed buffer whose target type is absent from the registry
/// decodes to `TypeNotRegistered`; no value is constructed.
pub proof fn lemma_unregistered(
    r: Result<ReflectedValue, ReflectLoaderError>,
    target: u64,
    bytes: Seq<u8>,
    reg: Seq<RegistryEntry>,
)
    requires
        decode_post(r, target, bytes, reg),
        json_parse(bytes) is Some,
        reg_lookup(reg, target) is None,
    ensures
        r == Err::<ReflectedValue, ReflectLoaderError>(ReflectLoaderError::TypeNotRegistered),
{
}

/// A well-formed buffer whose shape omits a field the target's layout
/// requires fails with a schema mismatch: no default is substituted.
pub proof fn lemma_missing_field_fails(
    r: Result<ReflectedValue, ReflectLoaderError>,
    target: u64,
    bytes: Seq<u8>,
    reg: Seq<RegistryEntry>,
    name: Seq<char>,
)
    requires
        decode_post(r, target, bytes, reg),
        json_parse(bytes) is Some,
        reg_lookup(reg, target) is Some,
        schema_has(reg_lookup(reg, target).unwrap().fields@, name),
        json_parse(bytes).unwrap() matches JsonValue::Obj(entries) ==> obj_lookup(
            entries@,
            name,
        ) is None,
    ensures
        r matches Err(ReflectLoaderError::SchemaMismatch(_)),
{
    let v = json_parse(bytes).unwrap();
    let d = reg_lookup(reg, target).unwrap();
    match v {
        JsonValue::Obj(entries) => {
            let i = choose|i: int| 0 <= i < d.fields@.len() && d.fields@[i].name@ == name;
            assert(v->Obj_0 == entries);
            assert(obj_lookup(entries@, d.fields@[i].name@) is None);
            assert(!crate::schema::field_ok(d.fields@[i], entries@));
            assert(!matches_schema(d.fields@, v));
        },
        _ => {
            assert(!matches_schema(d.fields@, v));
        },
    }
}

/// Decoding the same byte content twice against an unchanged registry yields
/// two equal results: the decoder keeps no hidden state between calls.
pub proof fn lemma_decode_deterministic(
    r1: Result<ReflectedValue, ReflectLoaderError>,
    r2: Result<ReflectedValue, ReflectLoaderError>,
    target: u64,
    bytes: Seq<u8>,
    reg: Seq<RegistryEntry>,
)
    requires
        decode_post(r1, target, bytes, reg),
        decode_post(r2, target, bytes, reg),
    ensures
        results_agree(r1, r2),
{
}

/// A well-formed buffer that matches the registered layout of the target
/// type decodes to exactly the value that a generic pass over that layout
/// yields, field for field.
pub proof fn lemma_decode_follows_schema(
    r: Result<ReflectedValue, ReflectLoaderError>,
    target: u64,
    bytes: Seq<u8>,
    reg: Seq<RegistryEntry>,
)
    requires
        decode_post(r, target, bytes, reg),
        json_parse(bytes) is Some,
        reg_lookup(reg, target) is Some,
        reg_lookup(reg, target).unwrap().id == target,
        matches_schema(reg_lookup(reg, target).unwrap().fields@, json_parse(bytes).unwrap()),
    ensures
        r matches Ok(rv) && rv.type_id == target && rv.fields@ == reflect_result(
            reg_lookup(reg, target).unwrap(),
            json_parse(bytes).unwrap(),
        ),
{
}

} // verus!
