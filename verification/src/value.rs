//! The untyped structured value: a generic tree of scalars, sequences and
//! key-value mappings, as parsed from an input byte buffer.

use vstd::prelude::*;

verus! {

/// A generic structured value. Numbers are modelled as signed 64-bit
/// integers; mappings keep their entries as a sequence of key-value pairs.
#[derive(Debug, PartialEq)]
pub enum JsonValue {
    Null,
    Bool(bool),
    Int(i64),
    Str(String),
    Arr(Vec<JsonValue>),
    Obj(Vec<(String, JsonValue)>),
}

/// The value bound to `name` in an object's entry list: first binding wins.
pub open spec fn obj_lookup(entries: Seq<(String, JsonValue)>, name: Seq<char>) -> Option<JsonValue>
    decreases entries.len(),
{
    if entries.len() == 0 {
        None
    } else if entries[0].0@ == name {
        Some(entries[0].1)
    } else {
        obj_lookup(entries.drop_first(), name)
    }
}

/// First value bound to `name` among `entries`, as `obj_lookup` states it.
pub fn obj_get<'a>(entries: &'a Vec<(String, JsonValue)>, name: &String) -> (r: Option<&'a JsonValue>)
    ensures
        match r {
            Some(v) => obj_lookup(entries@, name@) == Some(*v),
            None => obj_lookup(entries@, name@) is None,
        },
{
    let mut j: usize = 0;
    proof {
        assert(entries@.skip(0) =~= entries@);
    }
    while j < entries.len()
        invariant
            0 <= j <= entries@.len(),
            obj_lookup(entries@, name@) == obj_lookup(entries@.skip(j as int), name@),
        decreases entries@.len() - j,
    {
        proof {
            assert(entries@.skip(j as int)[0] == entries@[j as int]);
            assert(entries@.skip(j as int).drop_first() =~= entries@.skip(j as int + 1));
        }
        if entries[j].0 == *name {
            return Some(&entries[j].1);
        }
        j += 1;
    }
    proof {
        assert(entries@.skip(j as int) =~= Seq::<(String, JsonValue)>::empty());
    }
    None
}

} // verus!
