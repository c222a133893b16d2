//! Module for anything file related,
//! that is list of files, file, list of links ...

use vstd::prelude::*;

use crate::cli::Cli;
use crate::files::links::cache::Cache;
use crate::files::links::link::{Link, Probe};
use crate::files::links::Links;

pub mod file;
pub mod links;

verus! {

/// Represents a list of files with a link cache.
///
/// The one cache serves every file of a run.
pub struct Files {
    /// Checked links cache
    cache: Cache,
}

impl View for Files {
    type V = Set<Seq<char>>;

    /// The links that the cache of the run contains.
    closed spec fn view(&self) -> Set<Seq<char>> {
        self.cache@
    }
}

impl Default for Files {
    fn default() -> (files: Self)
        ensures
            files@ == Set::<Seq<char>>::empty(),
    {
        Self::new()
    }
}

impl Files {
    /// Creates a new empty list of files
    pub fn new() -> (files: Self)
        ensures
            files@ == Set::<Seq<char>>::empty(),
    {
        Self { cache: Cache::new() }
    }

    /// Whether the cache of the run contains `link`.
    pub fn cached(&self, link: &Link) -> (found: bool)
        ensures
            found == self@.contains(link@),
    {
        self.cache.contains(link)
    }

    /// Check the links of one file up to the next one that has to be probed,
    /// against the cache of the run: [`Links::check`] with that cache, which
    /// stays as it is.
    pub fn check(&mut self, links: &mut Links, cli: &Cli) -> (probe: Option<Link>)
        ensures
            final(self)@ == old(self)@,
            final(links).links() == old(links).links(),
            Links::aligned(final(links).links(), final(links).results()),
            old(links).waiting() ==> final(links).results() == old(links).results(),
            !old(links).waiting() ==> Links::skipped(
                old(links).links(),
                old(links).results(),
                final(links).results(),
                cli.ignored(),
                old(self)@,
            ),
            probe is Some <==> final(links).waiting(),
            probe is Some <==> final(links).results().len() < final(links).links().len(),
            probe matches Some(link) ==> link@ == final(links).links()[final(links).results().len() as int],
    {
        links.check(cli, &self.cache)
    }

    /// Records the outcome of a probe for one file, with the cache of the
    /// run: [`Links::record`] with that cache, which a link determined alive
    /// enters and nothing leaves.
    pub fn record(&mut self, links: &mut Links, probe: &Probe) -> (recorded: bool)
        ensures
            recorded == old(links).waiting(),
            !final(links).waiting(),
            final(links).links() == old(links).links(),
            Links::aligned(final(links).links(), final(links).results()),
            recorded ==> old(links).results().len() < old(links).links().len(),
            recorded ==> final(links).results() == old(links).results().push(
                (old(links).links()[old(links).results().len() as int], probe.status()),
            ),
            recorded && probe.status() is Alive ==> final(self)@ == old(self)@.insert(
                old(links).links()[old(links).results().len() as int],
            ),
            !recorded ==> final(links).results() == old(links).results(),
            !(recorded && probe.status() is Alive) ==> final(self)@ == old(self)@,
            old(self)@.subset_of(final(self)@),
    {
        links.record(probe, &mut self.cache)
    }
}

} // verus!
