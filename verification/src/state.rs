use vstd::prelude::*;

verus! {

/// The record held by the singleton slot: a person's name and age.
#[derive(Clone, Debug, PartialEq, Eq)]
pub struct Humans {
    pub name: String,
    pub age: u64,
}

/// The value stored per key in the keyed mapping.
#[derive(Clone, Copy, Debug, PartialEq, Eq, Structural)]
pub struct Age {
    pub age: u64,
}

/// The one domain error: a keyed write hit a key that is already present.
/// Carries the conflicting key.
#[derive(Clone, Debug, PartialEq, Eq)]
pub struct KeyExists {
    pub key: String,
}

/// What a write does to the singleton slot: it replaces the slot
/// unconditionally, whatever it held before.
pub open spec fn singleton_write_model(
    slot: Option<(Seq<char>, u64)>,
    name: Seq<char>,
    age: u64,
) -> Option<(Seq<char>, u64)> {
    Some((name, age))
}

/// What a write does to the keyed mapping: a fresh key is inserted, a key
/// that is already present leaves the mapping untouched (first write wins).
pub open spec fn keyed_write_model(
    entries: Map<Seq<char>, u64>,
    name: Seq<char>,
    age: u64,
) -> Map<Seq<char>, u64> {
    if entries.contains_key(name) {
        entries
    } else {
        entries.insert(name, age)
    }
}

/// What a keyed read returns: the stored age for a present key, absence
/// (never an error) for a key that is not in the mapping.
pub open spec fn keyed_read_model(entries: Map<Seq<char>, u64>, name: Seq<char>) -> Option<u64> {
    if entries.contains_key(name) {
        Some(entries[name])
    } else {
        None
    }
}

/// The slot after a whole sequence of singleton writes, applied first to last.
pub open spec fn singleton_write_all(
    slot: Option<(Seq<char>, u64)>,
    writes: Seq<(Seq<char>, u64)>,
) -> Option<(Seq<char>, u64)>
    decreases writes.len(),
{
    if writes.len() == 0 {
        slot
    } else {
        singleton_write_all(
            singleton_write_model(slot, writes[0].0, writes[0].1),
            writes.drop_first(),
        )
    }
}

/// Law: a singleton write followed by a read yields exactly the written
/// record; the slot's prior contents play no part.
pub proof fn lemma_singleton_read_after_write(
    slot: Option<(Seq<char>, u64)>,
    name: Seq<char>,
    age: u64,
)
    ensures
        singleton_write_model(slot, name, age) == Some((name, age)),
{
}

/// Law: after any non-empty sequence of singleton writes, only the last
/// write's record is observable — overwrite is unconditional.
pub proof fn lemma_singleton_last_write_wins(
    slot: Option<(Seq<char>, u64)>,
    writes: Seq<(Seq<char>, u64)>,
)
    requires
        writes.len() > 0,
    ensures
        singleton_write_all(slot, writes) == Some((writes.last().0, writes.last().1)),
    decreases writes.len(),
{
    if writes.len() == 1 {
        assert(writes.drop_first().len() == 0);
    } else {
        lemma_singleton_last_write_wins(
            singleton_write_model(slot, writes[0].0, writes[0].1),
            writes.drop_first(),
        );
        assert(writes.drop_first().last() == writes.last());
    }
}

/// Law: a write to an absent key stores its age; a later write of the same
/// key changes nothing, whatever age it carries — the stored value remains
/// the first one.
pub proof fn lemma_keyed_first_write_wins(
    entries: Map<Seq<char>, u64>,
    name: Seq<char>,
    age: u64,
    age2: u64,
)
    requires
        !entries.contains_key(name),
    ensures
        keyed_write_model(entries, name, age).contains_key(name),
        keyed_write_model(entries, name, age)[name] == age,
        keyed_write_model(keyed_write_model(entries, name, age), name, age2)
            == keyed_write_model(entries, name, age),
        keyed_read_model(keyed_write_model(keyed_write_model(entries, name, age), name, age2), name)
            == Some(age),
{
}

/// Law: a key never written reads as absent, not as an error: it is absent
/// from a fresh mapping, and a write to any other key keeps it absent.
pub proof fn lemma_never_written_reads_absent(
    entries: Map<Seq<char>, u64>,
    name: Seq<char>,
    other: Seq<char>,
    age: u64,
)
    requires
        !entries.contains_key(name),
        other != name,
    ensures
        keyed_read_model(Map::<Seq<char>, u64>::empty(), name) is None,
        keyed_read_model(entries, name) is None,
        keyed_read_model(keyed_write_model(entries, other, age), name) is None,
{
}

} // verus!
