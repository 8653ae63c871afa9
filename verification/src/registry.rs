//! Ward registry: per-ward placement context keyed by an opaque entity
//! handle. The backing store is a `hashbrown` hash map held behind trusted
//! wrappers; its contents are modeled as a `Map<u32, WardEntry>`.

use vstd::prelude::*;

use crate::types::WardEntry;

verus! {

/// Holds one `WardEntry` per live ward handle. Entries are never removed:
/// a handle once placed stays resolvable for the rest of the stream.
#[verifier::external_body]
pub struct Registry {
    map: hashbrown::HashMap<u32, WardEntry>,
}

/// The contents of a registry, as a map from ward handle to placement
/// context.
pub uninterp spec fn registry_map(r: Registry) -> Map<u32, WardEntry>;

impl Registry {
    /// Relies on hashbrown::HashMap::new: a fresh map is empty.
    #[verifier::external_body]
    pub fn new() -> (r: Registry)
        ensures
            registry_map(r) == (Map::<u32, WardEntry>::empty()),
    {
        Registry { map: hashbrown::HashMap::new() }
    }

    /// Relies on hashbrown::HashMap::insert: after the call the key maps to
    /// the given value and every other key is unaffected.
    #[verifier::external_body]
    pub fn insert(&mut self, handle: u32, entry: WardEntry)
        ensures
            registry_map(*final(self)) == registry_map(*old(self)).insert(handle, entry),
    {
        self.map.insert(handle, entry);
    }

    /// Relies on hashbrown::HashMap::get: returns the value the key maps to,
    /// and `None` exactly when the key is absent.
    #[verifier::external_body]
    pub fn get(&self, handle: u32) -> (r: Option<WardEntry>)
        ensures
            registry_map(*self).contains_key(handle) ==> r == Some(registry_map(*self)[handle]),
            !registry_map(*self).contains_key(handle) ==> r is None,
    {
        self.map.get(&handle).copied()
    }
}

} // verus!
