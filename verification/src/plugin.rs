//! The registrar: wires a decoder for one concrete asset type into the host
//! application at startup.
//!
//! The plugin holds only the extension configuration. Installing it into the
//! host builds one decoder bound to the live registry and to that list; the
//! host-side registration call itself belongs to the host's plumbing.

use core::marker::PhantomData;

use vstd::prelude::*;
use vstd::slice::slice_to_vec;

use crate::loader::ReflectionAssetLoader;

verus! {

/// Plugin that loads an asset type `A` from JSON files with the configured
/// extensions. `A` only fixes which type the built decoder is for; the
/// plugin itself holds no other state.
pub struct JsonReflectAssetPlugin<A> {
    extensions: Vec<&'static str>,
    _marker: PhantomData<A>,
}

impl<A> JsonReflectAssetPlugin<A> {
    /// The extension list this plugin was constructed with.
    pub closed spec fn spec_extensions(&self) -> Seq<&'static str> {
        self.extensions@
    }

    /// A plugin that will load assets from files with the given extensions.
    pub fn new(extensions: &[&'static str]) -> (r: Self)
        ensures
            r.spec_extensions() == extensions@,
    {
        JsonReflectAssetPlugin { extensions: slice_to_vec(extensions), _marker: PhantomData }
    }

    /// The decoder this plugin installs: bound to `target`, the registry key
    /// under which the host registered `A`'s descriptor, and to the
    /// configured extension list.
    pub fn build_loader(&self, target: u64) -> (r: ReflectionAssetLoader)
        ensures
            r.spec_target() == target,
            r.spec_extensions() == self.spec_extensions(),
    {
        ReflectionAssetLoader::new(target, self.extensions.as_slice())
    }
}

} // verus!
