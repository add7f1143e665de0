//! The mapping store: every loaded mapping under an identifier of its own.
use crate::config::Mapping;
use crate::error::Error;
use vstd::prelude::*;

verus! {

/// No identifier occurs twice.
pub open spec fn ids_unique(s: Seq<(u128, Mapping)>) -> bool {
    forall|i: int, j: int| 0 <= i < j < s.len() ==> s[i].0 != s[j].0
}

/// Whether an identifier is in use.
pub open spec fn has_id(s: Seq<(u128, Mapping)>, id: u128) -> bool {
    exists|i: int| 0 <= i < s.len() && s[i].0 == id
}

/// Relies on `uuid::Uuid::new_v4`: a random identifier, as its 128 bits.
/// Nothing is known of its value.
#[verifier::external_body]
fn random_id() -> (r: u128) {
    u128::from_be_bytes(*uuid::Uuid::new_v4().as_bytes())
}

/// The loaded mappings, in the order in which they were added, each under a
/// unique identifier.
#[derive(Debug)]
pub struct Mappings {
    entries: Vec<(u128, Mapping)>,
}

impl Mappings {
    /// The identifiers and mappings, in insertion order.
    pub closed spec fn view(&self) -> Seq<(u128, Mapping)> {
        self.entries@
    }

    /// Each identifier is used once.
    pub open spec fn wf(&self) -> bool {
        ids_unique(self@)
    }

    /// An empty store.
    pub fn new() -> (r: Mappings)
        ensures
            r@ == Seq::<(u128, Mapping)>::empty(),
            r.wf(),
    {
        Mappings { entries: Vec::new() }
    }

    /// The number of mappings.
    pub fn len(&self) -> (r: usize)
        ensures
            r == self@.len(),
    {
        self.entries.len()
    }

    /// Whether the store is empty.
    pub fn is_empty(&self) -> (r: bool)
        ensures
            r == (self@.len() == 0),
    {
        self.entries.len() == 0
    }

    /// The mapping at position `i`.
    pub fn get(&self, i: usize) -> (r: &Mapping)
        requires
            i < self@.len(),
        ensures
            *r == self@[i as int].1,
    {
        &self.entries[i].1
    }

    /// The identifier at position `i`.
    pub fn id(&self, i: usize) -> (r: u128)
        requires
            i < self@.len(),
        ensures
            r == self@[i as int].0,
    {
        self.entries[i].0
    }

    /// Adds a mapping under `id`; an identifier that is already in use is
    /// refused and the store is left as it was.
    pub fn insert(&mut self, id: u128, mapping: Mapping) -> (r: Result<(), Error>)
        requires
            old(self).wf(),
        ensures
            final(self).wf(),
            has_id(old(self)@, id) ==> r == Err::<(), Error>(Error::MappingKeyCollision)
                && final(self)@ == old(self)@,
            !has_id(old(self)@, id) ==> r is Ok && final(self)@ == old(self)@.push((id, mapping)),
    {
        let mut i: usize = 0;
        while i < self.entries.len()
            invariant
                i <= self@.len(),
                self@ == old(self)@,
                self.wf(),
                forall|j: int| 0 <= j < i ==> self@[j].0 != id,
            decreases self@.len() - i,
        {
            if self.entries[i].0 == id {
                return Err(Error::MappingKeyCollision);
            }
            i = i + 1;
        }
        self.entries.push((id, mapping));
        Ok(())
    }

    /// Adds a mapping under a freshly drawn random identifier. Should the
    /// identifier be in use already, the mapping is refused.
    pub fn add(&mut self, mapping: Mapping) -> (r: Result<u128, Error>)
        requires
            old(self).wf(),
        ensures
            final(self).wf(),
            r matches Ok(id) ==> !has_id(old(self)@, id) && final(self)@ == old(self)@.push(
                (id, mapping),
            ),
            r is Err ==> r == Err::<u128, Error>(Error::MappingKeyCollision) && final(self)@ == old(
                self,
            )@,
    {
        let id = random_id();
        match self.insert(id, mapping) {
            Ok(()) => Ok(id),
            Err(e) => Err(e),
        }
    }
}

} // verus!
