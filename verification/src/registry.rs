//! The append-only registry of accepted location sets.
//!
//! The registry maps identifiers to the sets they were accepted with and
//! only ever grows; validation reads a snapshot of it and never mutates
//! it.  Its one invariant that validation relies on is that every
//! registered location is a valid coordinate, which acceptance guarantees.

use vstd::prelude::*;
use crate::geodesy::{is_valid_geolocation_val, Location};
use crate::proposal::{bytes_eq, copy_bytes, CurrencyIdentifier, LocationSet};

verus! {

/// One accepted set together with the identifier it was accepted under.
#[derive(Clone, PartialEq, Eq, Debug)]
pub struct RegistryEntry {
    pub id: CurrencyIdentifier,
    pub set: LocationSet,
}

/// The append-only collection of previously accepted location sets.
#[derive(Clone, PartialEq, Eq, Debug)]
pub struct Registry {
    pub entries: Vec<RegistryEntry>,
}

/// Every location of every member of a sequence of locations is a valid
/// coordinate.
pub open spec fn all_locations_valid(locs: Seq<Location>) -> bool {
    forall|i: int| 0 <= i < locs.len() ==> is_valid_geolocation_val(locs[i])
}

impl Registry {
    /// Every location registered so far is a valid coordinate; acceptance
    /// establishes it and appending an accepted set preserves it.
    pub open spec fn wf(self) -> bool {
        forall|i: int|
            0 <= i < self.entries@.len() ==> all_locations_valid(
                #[trigger] self.entries@[i].set.locations@,
            )
    }

    /// Some entry carries the given identifier bytes.
    pub open spec fn contains_id_val(self, id: Seq<u8>) -> bool {
        exists|i: int| 0 <= i < self.entries@.len() && #[trigger] self.entries@[i].id.bytes@ == id
    }

    /// An empty registry.
    pub fn new() -> (registry: Registry)
        ensures
            registry.entries@.len() == 0,
            registry.wf(),
    {
        Registry { entries: Vec::new() }
    }

    /// Looks the given identifier up in the index of known identifiers.
    pub fn contains_id(&self, id: &CurrencyIdentifier) -> (found: bool)
        ensures
            found == self.contains_id_val(id.bytes@),
    {
        let n = self.entries.len();
        let mut i: usize = 0;
        while i < n
            invariant
                i <= n,
                n == self.entries@.len(),
                forall|j: int| 0 <= j < i ==> #[trigger] self.entries@[j].id.bytes@ != id.bytes@,
            decreases n - i,
        {
            if bytes_eq(&self.entries[i].id.bytes, &id.bytes) {
                return true;
            }
            i += 1;
        }
        false
    }

    /// Returns the set registered under the given identifier, if any: the
    /// earliest entry carrying those identifier bytes.
    pub fn lookup(&self, id: &CurrencyIdentifier) -> (found: Option<&LocationSet>)
        ensures
            found is Some <==> self.contains_id_val(id.bytes@),
            found matches Some(set) ==> exists|i: int|
                0 <= i < self.entries@.len() && #[trigger] self.entries@[i].id.bytes@ == id.bytes@
                    && self.entries@[i].set == *set,
    {
        let n = self.entries.len();
        let mut i: usize = 0;
        while i < n
            invariant
                i <= n,
                n == self.entries@.len(),
                forall|j: int| 0 <= j < i ==> #[trigger] self.entries@[j].id.bytes@ != id.bytes@,
            decreases n - i,
        {
            if bytes_eq(&self.entries[i].id.bytes, &id.bytes) {
                return Some(&self.entries[i].set);
            }
            i += 1;
        }
        None
    }

    /// Returns a copy of the index of known identifiers, in registration
    /// order.
    pub fn all_ids(&self) -> (ids: Vec<CurrencyIdentifier>)
        ensures
            ids@.len() == self.entries@.len(),
            forall|i: int|
                0 <= i < ids@.len() ==> #[trigger] ids@[i].bytes@ == self.entries@[i].id.bytes@,
    {
        let n = self.entries.len();
        let mut ids: Vec<CurrencyIdentifier> = Vec::new();
        let mut i: usize = 0;
        while i < n
            invariant
                i <= n,
                n == self.entries@.len(),
                ids@.len() == i,
                forall|j: int|
                    0 <= j < i ==> #[trigger] ids@[j].bytes@ == self.entries@[j].id.bytes@,
            decreases n - i,
        {
            ids.push(CurrencyIdentifier { bytes: copy_bytes(&self.entries[i].id.bytes) });
            i += 1;
        }
        ids
    }

    /// Appends an accepted set under its identifier.  The registry only
    /// grows: everything registered before stays exactly where it was.
    pub fn register(&mut self, id: CurrencyIdentifier, set: LocationSet)
        requires
            old(self).wf(),
            all_locations_valid(set.locations@),
        ensures
            final(self).entries@ == old(self).entries@.push(RegistryEntry { id, set }),
            final(self).wf(),
    {
        let ghost n = self.entries@.len();
        self.entries.push(RegistryEntry { id, set });
        proof {
            assert forall|i: int|
                0 <= i < self.entries@.len() implies all_locations_valid(
                #[trigger] self.entries@[i].set.locations@,
            ) by {
                if i < n {
                    assert(self.entries@[i] == old(self).entries@[i]);
                }
            }
        }
    }
}

} // verus!
