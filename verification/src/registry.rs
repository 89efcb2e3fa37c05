//! Process-wide registration of configuration types.
//!
//! Each configuration type is registered once, under a caller-chosen type
//! key, together with the source location its payload is read from.
//! Registering the same type twice is a detectable misuse, not a silent
//! overwrite.

use vstd::prelude::*;

verus! {

/// Why a registration was rejected.
#[derive(Clone, Copy, PartialEq, Eq, Structural, Debug)]
pub enum RegistryError {
    /// The type key was already registered.
    DuplicateType,
}

/// Whether some entry carries `key`.
pub open spec fn has_key(entries: Seq<(u64, String)>, key: u64) -> bool {
    exists|i: int| 0 <= i < entries.len() && (#[trigger] entries[i]).0 == key
}

/// The table of registered configuration types: one `(type key, source
/// location)` entry per type.
pub struct Registry {
    pub entries: Vec<(u64, String)>,
}

impl Registry {
    /// Well-formedness: type keys are distinct.
    pub open spec fn wf(self) -> bool {
        forall|i: int, j: int|
            0 <= i < j < self.entries@.len() ==> (#[trigger] self.entries@[i]).0 != (
            #[trigger] self.entries@[j]).0
    }

    /// An empty registry.
    pub fn new() -> (r: Registry)
        ensures
            r.wf(),
            r.entries@.len() == 0,
    {
        Registry { entries: Vec::new() }
    }

    /// Register the configuration type `type_key` as read from `location`.
    /// Succeeds exactly when the key is not yet registered; a duplicate
    /// registration is rejected and leaves the registry unchanged.
    pub fn register(&mut self, type_key: u64, location: String) -> (r: Result<(), RegistryError>)
        requires
            old(self).wf(),
        ensures
            final(self).wf(),
            has_key(old(self).entries@, type_key) ==> (r == Result::<
                (),
                RegistryError,
            >::Err(RegistryError::DuplicateType) && final(self).entries@ == old(self).entries@),
            !has_key(old(self).entries@, type_key) ==> (r is Ok && final(self).entries@ == old(
                self,
            ).entries@.push((type_key, location))),
    {
        let n = self.entries.len();
        let mut k: usize = 0;
        while k < n
            invariant
                self.wf(),
                n == self.entries@.len(),
                k <= n,
                forall|i: int| 0 <= i < k ==> (#[trigger] self.entries@[i]).0 != type_key,
                self.entries == old(self).entries,
            decreases n - k,
        {
            if self.entries[k].0 == type_key {
                return Err(RegistryError::DuplicateType);
            }
            k += 1;
        }
        self.entries.push((type_key, location));
        Ok(())
    }

    /// The source location registered for `type_key`, if any.
    pub fn location_of(&self, type_key: u64) -> (r: Option<&String>)
        requires
            self.wf(),
        ensures
            r matches Some(loc) ==> exists|i: int|
                0 <= i < self.entries@.len() && (#[trigger] self.entries@[i]).0 == type_key
                    && self.entries@[i].1 == loc,
            r is None <==> !has_key(self.entries@, type_key),
    {
        let n = self.entries.len();
        let mut k: usize = 0;
        while k < n
            invariant
                n == self.entries@.len(),
                k <= n,
                forall|i: int| 0 <= i < k ==> (#[trigger] self.entries@[i]).0 != type_key,
            decreases n - k,
        {
            if self.entries[k].0 == type_key {
                return Some(&self.entries[k].1);
            }
            k += 1;
        }
        None
    }
}

} // verus!
