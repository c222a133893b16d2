//! Module defining cache related utilities.
//!
//! The cache aims to not check a link twice.
//! For now, only valid links are stored and invalid links are re-checked every time.

use vstd::hash_set::StringHashSet;
use vstd::prelude::*;

use crate::files::links::link::Link;

verus! {

/// Represents the links cache
pub struct Cache {
    data: StringHashSet,
}

impl View for Cache {
    type V = Set<Seq<char>>;

    closed spec fn view(&self) -> Set<Seq<char>> {
        self.data@
    }
}

impl Default for Cache {
    fn default() -> (cache: Self)
        ensures
            cache@ == Set::<Seq<char>>::empty(),
    {
        Self::new()
    }
}

impl Cache {
    /// Creates a new empty cache
    pub fn new() -> (cache: Self)
        ensures
            cache@ == Set::<Seq<char>>::empty(),
    {
        Self { data: StringHashSet::new() }
    }

    /// Check if the cache contains the given link
    pub fn contains(&self, link: &Link) -> (found: bool)
        ensures
            found == self@.contains(link@),
    {
        self.data.contains(link.as_str())
    }

    /// Inserts a new link in the cache
    pub fn inserts(&mut self, link: &Link)
        ensures
            final(self)@ == old(self)@.insert(link@),
    {
        self.data.insert(String::from_str(link.as_str()));
    }

    /// The number of distinct links in the cache
    pub fn len(&self) -> (len: usize)
        ensures
            len == self@.len(),
    {
        self.data.len()
    }

    /// A link that the cache contains is still contained after any other
    /// link has been inserted: nothing ever leaves the cache.
    pub proof fn lemma_inserts_keeps(cache: Set<Seq<char>>, inserted: Seq<char>, link: Seq<char>)
        requires
            cache.contains(link),
        ensures
            cache.insert(inserted).contains(link),
    {
    }

    /// Inserting a link that the cache contains changes nothing.
    pub proof fn lemma_inserts_idempotent(cache: Set<Seq<char>>, link: Seq<char>)
        ensures
            cache.insert(link).insert(link) == cache.insert(link),
            cache.contains(link) ==> cache.insert(link) == cache,
    {
    }
}

} // verus!
