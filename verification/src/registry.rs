//! The type registry: a mapping from a type identifier to the runtime
//! descriptor of that type's layout.
//!
//! The registry is owned by the host application; the decoder only reads it.
//! An entry binds a lookup key to a descriptor; the key normally equals the
//! descriptor's own identity, but the registry does not enforce that — an
//! aliased entry is what makes the decoder's final downcast check fail.

use vstd::prelude::*;

use crate::schema::TypeDescriptor;

verus! {

/// One registration: a descriptor filed under a lookup key.
#[derive(Debug, Clone)]
pub struct RegistryEntry {
    pub key: u64,
    pub descriptor: TypeDescriptor,
}

/// A registry of type descriptors, keyed by type identifier. The earliest
/// registration under a key wins; later ones under the same key are inert.
#[derive(Debug, Clone)]
pub struct TypeRegistry {
    entries: Vec<RegistryEntry>,
}

/// The descriptor filed under `key`: first registration wins.
pub open spec fn reg_lookup(entries: Seq<RegistryEntry>, key: u64) -> Option<TypeDescriptor>
    decreases entries.len(),
{
    if entries.len() == 0 {
        None
    } else if entries[0].key == key {
        Some(entries[0].descriptor)
    } else {
        reg_lookup(entries.drop_first(), key)
    }
}

impl View for TypeRegistry {
    type V = Seq<RegistryEntry>;

    closed spec fn view(&self) -> Seq<RegistryEntry> {
        self.entries@
    }
}

impl TypeRegistry {
    /// An empty registry: no type is registered.
    pub fn new() -> (r: Self)
        ensures
            r@ == Seq::<RegistryEntry>::empty(),
    {
        TypeRegistry { entries: Vec::new() }
    }

    /// File `descriptor` under `key`. An earlier registration under the same
    /// key keeps precedence.
    pub fn register(&mut self, key: u64, descriptor: TypeDescriptor)
        ensures
            final(self)@ == old(self)@.push(RegistryEntry { key, descriptor }),
    {
        self.entries.push(RegistryEntry { key, descriptor });
    }

    /// The descriptor filed under `key`, as `reg_lookup` states it.
    pub fn get(&self, key: u64) -> (r: Option<&TypeDescriptor>)
        ensures
            match r {
                Some(d) => reg_lookup(self@, key) == Some(*d),
                None => reg_lookup(self@, key) is None,
            },
    {
        let mut j: usize = 0;
        proof {
            assert(self.entries@.skip(0) =~= self.entries@);
        }
        while j < self.entries.len()
            invariant
                0 <= j <= self.entries@.len(),
                reg_lookup(self.entries@, key) == reg_lookup(self.entries@.skip(j as int), key),
            decreases self.entries@.len() - j,
        {
            proof {
                assert(self.entries@.skip(j as int)[0] == self.entries@[j as int]);
                assert(self.entries@.skip(j as int).drop_first() =~= self.entries@.skip(
                    j as int + 1,
                ));
            }
            if self.entries[j].key == key {
                return Some(&self.entries[j].descriptor);
            }
            j += 1;
        }
        proof {
            assert(self.entries@.skip(j as int) =~= Seq::<RegistryEntry>::empty());
        }
        None
    }
}

} // verus!
