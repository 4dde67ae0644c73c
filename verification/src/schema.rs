//! Type descriptors and the schema-driven deserialization pass.
//!
//! A `TypeDescriptor` describes the field layout of a record type; the pass
//! interprets an untyped structured value field by field against such a
//! descriptor and produces a generic reflected value, or a mismatch error.
//! It never substitutes defaults and never constructs a partial value.

use vstd::prelude::*;

use crate::value::{obj_lookup, JsonValue};

verus! {

/// The scalar kind a record field can carry.
#[derive(Debug, Clone, Copy, PartialEq, Eq, Structural)]
pub enum FieldKind {
    Bool,
    Int,
    Str,
}

/// One named field of a record type's layout.
#[derive(Debug, Clone)]
pub struct FieldSchema {
    pub name: String,
    pub kind: FieldKind,
}

/// Runtime descriptor of a record type: its identity and its field layout.
#[derive(Debug, Clone)]
pub struct TypeDescriptor {
    pub id: u64,
    pub fields: Vec<FieldSchema>,
}

/// A scalar slot of a reflected value.
#[derive(Debug, Clone, PartialEq)]
pub enum FieldValue {
    Bool(bool),
    Int(i64),
    Str(String),
}

/// The generic reflected value the deserialization pass produces: the
/// descriptor's identity, and one scalar per field of its layout.
#[derive(Debug, Clone, PartialEq)]
pub struct ReflectedValue {
    pub type_id: u64,
    pub fields: Vec<(String, FieldValue)>,
}

/// Why a structured value failed to match a descriptor's layout.
#[derive(Debug, Clone, Copy, PartialEq, Eq, Structural)]
pub enum SchemaError {
    NotAnObject,
    MissingField,
    WrongKind,
    UnknownField,
}

/// The scalar that `v` contributes to a field of kind `kind`, if the kinds
/// agree.
pub open spec fn scalar_of(v: JsonValue, kind: FieldKind) -> Option<FieldValue> {
    match (v, kind) {
        (JsonValue::Bool(b), FieldKind::Bool) => Some(FieldValue::Bool(b)),
        (JsonValue::Int(i), FieldKind::Int) => Some(FieldValue::Int(i)),
        (JsonValue::Str(s), FieldKind::Str) => Some(FieldValue::Str(s)),
        _ => None,
    }
}

/// Field `f` is present among `entries` with a value of its kind.
pub open spec fn field_ok(f: FieldSchema, entries: Seq<(String, JsonValue)>) -> bool {
    match obj_lookup(entries, f.name@) {
        Some(v) => scalar_of(v, f.kind) is Some,
        None => false,
    }
}

/// Some field of `fields` is named `name`.
pub open spec fn schema_has(fields: Seq<FieldSchema>, name: Seq<char>) -> bool {
    exists|i: int| 0 <= i < fields.len() && fields[i].name@ == name
}

/// `v` matches the layout `fields` exactly: it is an object, every field of
/// the layout is present with a value of its kind, and every key of the
/// object is a field of the layout.
pub open spec fn matches_schema(fields: Seq<FieldSchema>, v: JsonValue) -> bool {
    match v {
        JsonValue::Obj(entries) => {
            &&& (forall|i: int| 0 <= i < fields.len() ==> #[trigger] field_ok(fields[i], entries@))
            &&& (forall|j: int|
                0 <= j < entries@.len() ==> #[trigger] schema_has(fields, entries@[j].0@))
        },
        _ => false,
    }
}

/// The first failure among the layout's own fields, scanning them in order:
/// a field absent from `entries`, or one bound to a value of another kind.
pub open spec fn first_field_mismatch(
    fields: Seq<FieldSchema>,
    entries: Seq<(String, JsonValue)>,
) -> Option<SchemaError>
    decreases fields.len(),
{
    if fields.len() == 0 {
        None
    } else {
        match obj_lookup(entries, fields[0].name@) {
            None => Some(SchemaError::MissingField),
            Some(v) => if scalar_of(v, fields[0].kind) is None {
                Some(SchemaError::WrongKind)
            } else {
                first_field_mismatch(fields.drop_first(), entries)
            },
        }
    }
}

/// The first key of `entries`, in order, that names no field of the layout.
pub open spec fn first_unknown_key(
    fields: Seq<FieldSchema>,
    entries: Seq<(String, JsonValue)>,
) -> Option<SchemaError>
    decreases entries.len(),
{
    if entries.len() == 0 {
        None
    } else if !schema_has(fields, entries[0].0@) {
        Some(SchemaError::UnknownField)
    } else {
        first_unknown_key(fields, entries.drop_first())
    }
}

/// The error the deserialization pass reports for `v` against `fields`:
/// the layout's fields are checked first, in order, then the object's keys,
/// in order. `None` exactly when `v` matches the layout.
pub open spec fn mismatch_of(fields: Seq<FieldSchema>, v: JsonValue) -> Option<SchemaError> {
    match v {
        JsonValue::Obj(entries) => match first_field_mismatch(fields, entries@) {
            Some(e) => Some(e),
            None => first_unknown_key(fields, entries@),
        },
        _ => Some(SchemaError::NotAnObject),
    }
}

/// The field scan succeeds exactly when every field of the layout is present
/// with a value of its kind.
proof fn lemma_field_scan(fields: Seq<FieldSchema>, entries: Seq<(String, JsonValue)>)
    ensures
        first_field_mismatch(fields, entries) is None <==> (forall|i: int|
            0 <= i < fields.len() ==> #[trigger] field_ok(fields[i], entries)),
    decreases fields.len(),
{
    if fields.len() == 0 {
    } else {
        lemma_field_scan(fields.drop_first(), entries);
        assert forall|i: int| 0 <= i < fields.drop_first().len() implies (#[trigger] field_ok(
            fields.drop_first()[i],
            entries,
        )) == field_ok(fields[i + 1], entries) by {
            assert(fields.drop_first()[i] == fields[i + 1]);
        }
        if field_ok(fields[0], entries) && first_field_mismatch(fields.drop_first(), entries)
            is None {
            assert forall|i: int| 0 <= i < fields.len() implies #[trigger] field_ok(
                fields[i],
                entries,
            ) by {
                if i > 0 {
                    assert(field_ok(fields.drop_first()[i - 1], entries));
                }
            }
        }
    }
}

/// The key scan succeeds exactly when every key of the object names a field
/// of the layout.
proof fn lemma_key_scan(fields: Seq<FieldSchema>, entries: Seq<(String, JsonValue)>)
    ensures
        first_unknown_key(fields, entries) is None <==> (forall|j: int|
            0 <= j < entries.len() ==> #[trigger] schema_has(fields, entries[j].0@)),
    decreases entries.len(),
{
    if entries.len() == 0 {
    } else {
        lemma_key_scan(fields, entries.drop_first());
        assert forall|j: int| 0 <= j < entries.drop_first().len() implies (#[trigger] schema_has(
            fields,
            entries.drop_first()[j].0@,
        )) == schema_has(fields, entries[j + 1].0@) by {
            assert(entries.drop_first()[j] == entries[j + 1]);
        }
        if schema_has(fields, entries[0].0@) && first_unknown_key(fields, entries.drop_first())
            is None {
            assert forall|j: int| 0 <= j < entries.len() implies #[trigger] schema_has(
                fields,
                entries[j].0@,
            ) by {
                if j > 0 {
                    assert(schema_has(fields, entries.drop_first()[j - 1].0@));
                }
            }
        }
    }
}

/// The ordered scan and the declarative statement agree: the scan finds a
/// mismatch exactly when the value does not match the layout.
pub proof fn lemma_mismatch_iff_matches(fields: Seq<FieldSchema>, v: JsonValue)
    ensures
        mismatch_of(fields, v) is None <==> matches_schema(fields, v),
{
    match v {
        JsonValue::Obj(entries) => {
            assert(v->Obj_0 == entries);
            lemma_field_scan(fields, entries@);
            lemma_key_scan(fields, entries@);
        },
        _ => {},
    }
}

/// The reflected fields a matching object yields: the layout's fields in the
/// layout's order, each with the scalar bound to its name.
pub open spec fn reflected_fields(
    fields: Seq<FieldSchema>,
    entries: Seq<(String, JsonValue)>,
) -> Seq<(String, FieldValue)> {
    Seq::new(
        fields.len(),
        |i: int|
            (fields[i].name, scalar_of(obj_lookup(entries, fields[i].name@).unwrap(), fields[i].kind).unwrap()),
    )
}

/// The reflected fields that deserializing `v` against `desc` yields.
pub open spec fn reflect_result(desc: TypeDescriptor, v: JsonValue) -> Seq<(String, FieldValue)> {
    match v {
        JsonValue::Obj(entries) => reflected_fields(desc.fields@, entries@),
        _ => Seq::empty(),
    }
}

/// The scalar that `v` contributes to a field of kind `kind`, as `scalar_of`
/// states it.
fn scalar_value(v: &JsonValue, kind: FieldKind) -> (r: Option<FieldValue>)
    ensures
        r == scalar_of(*v, kind),
{
    match (v, kind) {
        (JsonValue::Bool(b), FieldKind::Bool) => Some(FieldValue::Bool(*b)),
        (JsonValue::Int(i), FieldKind::Int) => Some(FieldValue::Int(*i)),
        (JsonValue::Str(s), FieldKind::Str) => Some(FieldValue::Str(s.clone())),
        _ => None,
    }
}

/// Whether some field of `fields` is named `name`, as `schema_has` states it.
fn schema_contains(fields: &Vec<FieldSchema>, name: &String) -> (b: bool)
    ensures
        b == schema_has(fields@, name@),
{
    let mut i: usize = 0;
    while i < fields.len()
        invariant
            0 <= i <= fields@.len(),
            forall|k: int| 0 <= k < i ==> (#[trigger] fields@[k]).name@ != name@,
        decreases fields@.len() - i,
    {
        if fields[i].name == *name {
            return true;
        }
        i += 1;
    }
    false
}

/// One deserialization pass: interpret `value` against `desc`'s layout and
/// produce the reflected value, tagged with `desc`'s identity. Fails exactly
/// when `value` does not match the layout; on failure no value, partial or
/// default-filled, is constructed.
pub fn reflect_deserialize(desc: &TypeDescriptor, value: &JsonValue) -> (r: Result<
    ReflectedValue,
    SchemaError,
>)
    ensures
        match r {
            Ok(rv) => {
                &&& matches_schema(desc.fields@, *value)
                &&& rv.type_id == desc.id
                &&& rv.fields@ == reflect_result(*desc, *value)
            },
            Err(e) => {
                &&& !matches_schema(desc.fields@, *value)
                &&& mismatch_of(desc.fields@, *value) == Some(e)
            },
        },
{
    let entries = match value {
        JsonValue::Obj(entries) => entries,
        _ => {
            proof {
                lemma_mismatch_iff_matches(desc.fields@, *value);
            }
            return Err(SchemaError::NotAnObject);
        },
    };
    let mut out: Vec<(String, FieldValue)> = Vec::new();
    let mut i: usize = 0;
    proof {
        assert(desc.fields@.skip(0) =~= desc.fields@);
    }
    while i < desc.fields.len()
        invariant
            0 <= i <= desc.fields@.len(),
            *value == JsonValue::Obj(*entries),
            out@.len() == i,
            first_field_mismatch(desc.fields@, entries@) == first_field_mismatch(
                desc.fields@.skip(i as int),
                entries@,
            ),
            forall|k: int| 0 <= k < i ==> field_ok(#[trigger] desc.fields@[k], entries@),
            forall|k: int|
                0 <= k < i ==> out@[k] == (
                    desc.fields@[k].name,
                    scalar_of(
                        obj_lookup(entries@, desc.fields@[k].name@).unwrap(),
                        desc.fields@[k].kind,
                    ).unwrap(),
                ),
        decreases desc.fields@.len() - i,
    {
        let f = &desc.fields[i];
        proof {
            assert((*value)->Obj_0 == *entries);
            assert(desc.fields@.skip(i as int)[0] == desc.fields@[i as int]);
            assert(desc.fields@.skip(i as int).drop_first() =~= desc.fields@.skip(i as int + 1));
        }
        match crate::value::obj_get(entries, &f.name) {
            Some(v) => {
                match scalar_value(v, f.kind) {
                    Some(fv) => {
                        out.push((f.name.clone(), fv));
                    },
                    None => {
                        proof {
                            assert(mismatch_of(desc.fields@, *value) == Some(
                                SchemaError::WrongKind,
                            ));
                            lemma_mismatch_iff_matches(desc.fields@, *value);
                        }
                        return Err(SchemaError::WrongKind);
                    },
                }
            },
            None => {
                proof {
                    assert(mismatch_of(desc.fields@, *value) == Some(SchemaError::MissingField));
                    lemma_mismatch_iff_matches(desc.fields@, *value);
                }
                return Err(SchemaError::MissingField);
            },
        }
        i += 1;
    }
    proof {
        assert(desc.fields@.skip(i as int) =~= Seq::<FieldSchema>::empty());
        assert(first_field_mismatch(desc.fields@, entries@) is None);
        assert(entries@.skip(0) =~= entries@);
    }
    let mut j: usize = 0;
    while j < entries.len()
        invariant
            0 <= j <= entries@.len(),
            *value == JsonValue::Obj(*entries),
            out@.len() == desc.fields@.len(),
            first_field_mismatch(desc.fields@, entries@) is None,
            first_unknown_key(desc.fields@, entries@) == first_unknown_key(
                desc.fields@,
                entries@.skip(j as int),
            ),
            forall|k: int| 0 <= k < desc.fields@.len() ==> field_ok(#[trigger] desc.fields@[k], entries@),
            forall|k: int|
                0 <= k < desc.fields@.len() ==> out@[k] == (
                    desc.fields@[k].name,
                    scalar_of(
                        obj_lookup(entries@, desc.fields@[k].name@).unwrap(),
                        desc.fields@[k].kind,
                    ).unwrap(),
                ),
            forall|k: int| 0 <= k < j ==> schema_has(desc.fields@, (#[trigger] entries@[k]).0@),
        decreases entries@.len() - j,
    {
        proof {
            assert((*value)->Obj_0 == *entries);
            assert(entries@.skip(j as int)[0] == entries@[j as int]);
            assert(entries@.skip(j as int).drop_first() =~= entries@.skip(j as int + 1));
        }
        if !schema_contains(&desc.fields, &entries[j].0) {
            proof {
                assert(mismatch_of(desc.fields@, *value) == Some(SchemaError::UnknownField));
                lemma_mismatch_iff_matches(desc.fields@, *value);
            }
            return Err(SchemaError::UnknownField);
        }
        j += 1;
    }
    proof {
        assert((*value)->Obj_0 == *entries);
        assert(out@ =~= reflect_result(*desc, *value));
    }
    Ok(ReflectedValue { type_id: desc.id, fields: out })
}

} // verus!
