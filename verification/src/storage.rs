use vstd::prelude::*;

use cosmwasm_std::testing::MockStorage;

use crate::state::{keyed_read_model, keyed_write_model, singleton_write_model, Age, Humans,
    KeyExists};

verus! {

#[verifier::external_type_specification]
#[verifier::external_body]
pub struct ExMockStorage(MockStorage);

/// What the singleton region of a storage value holds: the record saved under
/// the item's key, or nothing if that key was never written.
pub uninterp spec fn slot_contents(s: MockStorage) -> Option<
    (Seq<char>, u64),
>;

/// What the keyed region of a storage value holds: the mapping from written
/// keys to their stored ages.
pub uninterp spec fn keyed_contents(s: MockStorage) -> Map<Seq<char>, u64>;

/// Relies on MockStorage::new: a fresh storage holds no
/// byte entry at all, so both regions read as empty.
#[verifier::external_body]
fn storage_new() -> (store: MockStorage)
    ensures
        slot_contents(store) == Option::<(Seq<char>, u64)>::None,
        keyed_contents(store) == (Map::<Seq<char>, u64>::empty()),
{
    MockStorage::new()
}

/// Relies on cw_storage_plus::Item::save under the key "humans": it overwrites
/// that one key with the serialized pair, which a later may_load parses back.
/// Serializing a string and an integer cannot fail, so the unwrap never fires.
/// The "humans" key does not carry the length-prefixed "nametoage" namespace,
/// so the keyed region is untouched.
#[verifier::external_body]
fn slot_save(s: &mut MockStorage, name: &String, age: u64)
    ensures
        slot_contents(*final(s)) == Some((name@, age)),
        keyed_contents(*final(s)) == keyed_contents(*old(s)),
{
    let item = cw_storage_plus::Item::<(String, u64)>::new("humans");
    item.save(s, &(name.clone(), age)).unwrap();
}

/// Relies on cw_storage_plus::Item::may_load under the key "humans": it returns
/// the parsed pair stored there, or None if the key is absent. Every value this
/// module stores there parses back, so a parse error cannot arise.
#[verifier::external_body]
fn slot_load(s: &MockStorage) -> (r: Option<(String, u64)>)
    ensures
        r matches Some(p) ==> slot_contents(*s) == Some((p.0@, p.1)),
        r is None <==> slot_contents(*s) is None,
{
    let item = cw_storage_plus::Item::<(String, u64)>::new("humans");
    item.may_load(s).unwrap_or(None)
}

/// Relies on cw_storage_plus::Map::has under the namespace "nametoage": it
/// reports whether any value sits under the given key, without parsing it.
/// Distinct string keys map to distinct byte keys, so this is exact-match
/// membership in the keyed region.
#[verifier::external_body]
fn keyed_has(s: &MockStorage, name: &String) -> (r: bool)
    ensures
        r == keyed_contents(*s).contains_key(name@),
{
    let map = cw_storage_plus::Map::<String, u64>::new("nametoage");
    map.has(s, name.clone())
}

/// Relies on cw_storage_plus::Map::save under the namespace "nametoage": it
/// writes the serialized age under the given key and touches no other key, and
/// the "humans" item key lies outside this namespace. Serializing an integer
/// cannot fail, so the unwrap never fires.
#[verifier::external_body]
fn keyed_save(s: &mut MockStorage, name: &String, age: u64)
    ensures
        keyed_contents(*final(s)) == keyed_contents(*old(s)).insert(name@, age),
        slot_contents(*final(s)) == slot_contents(*old(s)),
{
    let map = cw_storage_plus::Map::<String, u64>::new("nametoage");
    map.save(s, name.clone(), &age).unwrap();
}

/// Relies on cw_storage_plus::Map::may_load under the namespace "nametoage":
/// it returns the parsed age stored under the given key, or None if the key is
/// absent. Every value this module stores there parses back.
#[verifier::external_body]
fn keyed_load(s: &MockStorage, name: &String) -> (r: Option<u64>)
    ensures
        r matches Some(a) ==> keyed_contents(*s).contains_key(name@) && keyed_contents(*s)[name@]
            == a,
        r is None <==> !keyed_contents(*s).contains_key(name@),
{
    let map = cw_storage_plus::Map::<String, u64>::new("nametoage");
    map.may_load(s, name.clone()).unwrap_or(None)
}

/// The persistent storage backend: one storage value carrying the two
/// independently namespaced regions, the singleton slot and the keyed mapping.
pub struct Backend {
    storage: MockStorage,
}

impl Backend {
    /// The singleton slot of this backend: at most one (name, age) record.
    pub closed spec fn slot(self) -> Option<(Seq<char>, u64)> {
        slot_contents(self.storage)
    }

    /// The keyed mapping of this backend: the written keys and their ages.
    pub closed spec fn entries(self) -> Map<Seq<char>, u64> {
        keyed_contents(self.storage)
    }

    /// A fresh backend: nothing written yet in either region.
    pub fn new() -> (b: Backend)
        ensures
            b.slot() is None,
            b.entries() == Map::<Seq<char>, u64>::empty(),
    {
        Backend { storage: storage_new() }
    }

    /// Singleton write: unconditionally replaces the slot with the given
    /// record. Always succeeds; the keyed mapping is untouched.
    pub fn singleton_write(&mut self, name: String, age: u64)
        ensures
            final(self).slot() == singleton_write_model(old(self).slot(), name@, age),
            final(self).entries() == old(self).entries(),
    {
        slot_save(&mut self.storage, &name, age);
    }

    /// Singleton read: the current record, or absence if never written.
    /// Pure; no region changes.
    pub fn singleton_read(&self) -> (r: Option<Humans>)
        ensures
            r matches Some(h) ==> self.slot() == Some((h.name@, h.age)),
            r is None <==> self.slot() is None,
    {
        match slot_load(&self.storage) {
            Some(p) => Some(Humans { name: p.0, age: p.1 }),
            None => None,
        }
    }

    /// Keyed write: inserts a fresh key and succeeds, or fails with the
    /// conflicting key and changes nothing if the key is already present.
    /// The singleton slot is untouched either way.
    pub fn keyed_write(&mut self, name: String, age: u64) -> (r: Result<(), KeyExists>)
        ensures
            r is Ok <==> !old(self).entries().contains_key(name@),
            r matches Err(e) ==> e.key@ == name@,
            final(self).entries() == keyed_write_model(old(self).entries(), name@, age),
            final(self).slot() == old(self).slot(),
    {
        if keyed_has(&self.storage, &name) {
            Err(KeyExists { key: name })
        } else {
            keyed_save(&mut self.storage, &name, age);
            Ok(())
        }
    }

    /// Keyed read: the entry stored under the key, or absence — never an
    /// error — if the key was never written. Pure; no region changes.
    pub fn keyed_read(&self, name: &String) -> (r: Option<Age>)
        ensures
            r matches Some(a) ==> keyed_read_model(self.entries(), name@) == Some(a.age),
            r is None <==> keyed_read_model(self.entries(), name@) is None,
    {
        match keyed_load(&self.storage, name) {
            Some(age) => Some(Age { age }),
            None => None,
        }
    }
}

} // verus!
