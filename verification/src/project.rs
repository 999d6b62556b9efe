//! A named project holding billable entries.

use vstd::prelude::*;

use crate::entry::Entry;
use crate::uid::fresh_id;

verus! {

/// True when some entry in `entries` carries the identifier `id`.
pub open spec fn has_entry_id(entries: Seq<Entry>, id: u128) -> bool {
    exists|i: int| 0 <= i < entries.len() && entries[i].id == id
}

/// True when `i` is the position of the first entry with identifier `id`.
pub open spec fn first_entry_with_id(entries: Seq<Entry>, id: u128, i: int) -> bool {
    &&& 0 <= i < entries.len()
    &&& entries[i].id == id
    &&& forall|j: int| 0 <= j < i ==> entries[j].id != id
}

/// The entries with every record carrying identifier `id` removed, in their
/// original order.
pub open spec fn entries_without_id(entries: Seq<Entry>, id: u128) -> Seq<Entry>
    decreases entries.len(),
{
    if entries.len() == 0 {
        Seq::empty()
    } else {
        entries_without_id(entries.drop_last(), id) + if entries.last().id == id {
            Seq::empty()
        } else {
            seq![entries.last()]
        }
    }
}

/// A named unit of work containing entries. The name is the project's key;
/// its uniqueness across the stored collection is enforced by the caller
/// that admits projects, not here.
pub struct Project {
    /// Project name, unique across all stored projects.
    pub name: String,
    /// Project description.
    pub description: Option<String>,
    /// Entries, in insertion order.
    pub entries: Vec<Entry>,
    /// Identifier of the project.
    pub id: u128,
}

impl Project {
    /// Create a new, empty project with a fresh random identifier.
    pub fn new(name: String, description: Option<String>) -> (r: Project)
        ensures
            r.name == name,
            r.description == description,
            r.entries@.len() == 0,
    {
        Project { name, description, entries: Vec::new(), id: fresh_id() }
    }

    /// Getter for `name`.
    pub fn name(&self) -> (r: &str)
        ensures
            r@ == self.name@,
    {
        self.name.as_str()
    }

    /// Getter for `description`.
    pub fn description(&self) -> (r: Option<&str>)
        ensures
            r is Some <==> self.description is Some,
            (r matches Some(s) ==> self.description matches Some(d) && s@ == d@),
    {
        match &self.description {
            Some(s) => Some(s.as_str()),
            None => None,
        }
    }

    /// Getter for `entries`.
    pub fn entries(&self) -> (r: &Vec<Entry>)
        ensures
            r == &self.entries,
    {
        &self.entries
    }

    /// Append a new entry to the project.
    pub fn add_entry(&mut self, entry: Entry)
        ensures
            final(self).entries@ == old(self).entries@.push(entry),
            final(self).name == old(self).name,
            final(self).description == old(self).description,
            final(self).id == old(self).id,
    {
        self.entries.push(entry);
    }

    /// Getter for `id`.
    pub fn id(&self) -> (r: u128)
        ensures
            r == self.id,
    {
        self.id
    }

    /// Remove every entry with the given identifier. Reports `false`, and
    /// changes nothing, when no entry carries it.
    pub fn remove_listed_entry(&mut self, entry_id: u128) -> (r: bool)
        ensures
            r == has_entry_id(old(self).entries@, entry_id),
            (r ==> final(self).entries@ == entries_without_id(old(self).entries@, entry_id)),
            (!r ==> *final(self) == *old(self)),
            final(self).name == old(self).name,
            final(self).description == old(self).description,
            final(self).id == old(self).id,
    {
        if self.entry_exists(entry_id) {
            let n = self.entries.len();
            let mut kept: Vec<Entry> = Vec::new();
            let mut i: usize = 0;
            while i < n
                invariant
                    n == self.entries@.len(),
                    0 <= i <= n,
                    kept@ == entries_without_id(self.entries@.take(i as int), entry_id),
                decreases n - i,
            {
                proof {
                    assert(self.entries@.take(i + 1 as int).drop_last() =~= self.entries@.take(
                        i as int,
                    ));
                    assert(self.entries@.take(i + 1 as int).last() == self.entries@[i as int]);
                }
                if self.entries[i].id != entry_id {
                    let e = self.entries[i].clone();
                    kept.push(e);
                }
                i += 1;
            }
            proof {
                assert(self.entries@.take(n as int) =~= self.entries@);
            }
            self.entries = kept;
            true
        } else {
            false
        }
    }

    /// Check whether an entry with the given identifier exists.
    pub fn entry_exists(&self, entry_id: u128) -> (r: bool)
        ensures
            r == has_entry_id(self.entries@, entry_id),
    {
        let n = self.entries.len();
        let mut i: usize = 0;
        while i < n
            invariant
                n == self.entries@.len(),
                0 <= i <= n,
                forall|j: int| 0 <= j < i ==> self.entries@[j].id != entry_id,
            decreases n - i,
        {
            if self.entries[i].id == entry_id {
                return true;
            }
            i += 1;
        }
        false
    }

    /// Return a copy of the first entry with the given identifier, if any.
    pub fn get_entry_copy(&self, entry_id: u128) -> (r: Option<Entry>)
        ensures
            r is Some <==> has_entry_id(self.entries@, entry_id),
            (r matches Some(e) ==> exists|i: int|
                first_entry_with_id(self.entries@, entry_id, i) && e == self.entries@[i]),
    {
        let n = self.entries.len();
        let mut i: usize = 0;
        while i < n
            invariant
                n == self.entries@.len(),
                0 <= i <= n,
                forall|j: int| 0 <= j < i ==> self.entries@[j].id != entry_id,
            decreases n - i,
        {
            if self.entries[i].id == entry_id {
                let e = self.entries[i].clone();
                proof {
                    assert(first_entry_with_id(self.entries@, entry_id, i as int));
                }
                return Some(e);
            }
            i += 1;
        }
        None
    }
}

} // verus!
