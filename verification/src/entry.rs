//! An atomic billable time record owned by a project.

use vstd::prelude::*;

use crate::clock::now_seconds;
use crate::uid::fresh_id;

verus! {

/// A logged time record. Unlike a day's minute-grained hours, an entry's
/// hours are whole hours, as the user reported them.
pub struct Entry {
    /// Whole hours logged.
    pub hours: u32,
    /// Description of the work done.
    pub description: Option<String>,
    /// When the entry was created, in seconds.
    pub created: i64,
    /// Identifier of the entry, unique within its project.
    pub id: u128,
}

impl Entry {
    /// Create a new entry, stamped with the current time and a fresh random
    /// identifier.
    pub fn new(hours: u32, description: Option<String>) -> (r: Entry)
        ensures
            r.hours == hours,
            r.description == description,
    {
        Entry { hours, description, created: now_seconds(), id: fresh_id() }
    }

    /// Getter for `hours`.
    pub fn hours(&self) -> (r: u32)
        ensures
            r == self.hours,
    {
        self.hours
    }

    /// Getter for `description`; an absent description reads as empty.
    pub fn description(&self) -> (r: &str)
        ensures
            (self.description matches Some(s) ==> r@ == s@),
            (self.description is None ==> r@.len() == 0),
    {
        proof {
            reveal_strlit("");
        }
        match &self.description {
            Some(value) => value.as_str(),
            None => "",
        }
    }

    /// Getter for `created`.
    pub fn created(&self) -> (r: i64)
        ensures
            r == self.created,
    {
        self.created
    }

    /// Getter for `id`.
    pub fn id(&self) -> (r: u128)
        ensures
            r == self.id,
    {
        self.id
    }
}

impl Clone for Entry {
    /// An exact copy of the entry.
    fn clone(&self) -> (r: Self)
        ensures
            r == *self,
    {
        let description = match &self.description {
            Some(s) => Some(s.clone()),
            None => None,
        };
        Entry { hours: self.hours, description, created: self.created, id: self.id }
    }
}

} // verus!
