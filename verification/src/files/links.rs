//! Module for anything link related
//!
//! Links are found in the text of a file, then checked one after the other.
//! Checking sends nothing itself: it stops at each link that has to be
//! probed and goes on once the outcome of the probe has been recorded.

use vstd::prelude::*;

use crate::cli::Cli;
use crate::files::links::cache::Cache;
use crate::files::links::link::{texts, Link, LinkStatus, Probe, StatusView};
use crate::files::links::results::Results;

pub mod cache;
pub mod link;
pub mod results;

verus! {

/// The pattern of a link: `http` or `https`, `://`, an optional alphanumeric
/// label with its dot, an alphanumeric label, a dot, two or three letters,
/// then any run of alphanumerics and of the characters `-$_.+!*/&?%=@,:`.
pub const URL_PATTERN: &'static str =
    "https?://(?:[[:alnum:]]+\\.)?[[:alnum:]]+\\.[[:alpha:]]{2,3}/?(?:[[:alnum:]]|[-$_.+!*/&?%=@,:])*";

/// The successive non-overlapping matches of the regular expression
/// `pattern` in `text`, from left to right, each as the text it matched;
/// `None` where `pattern` is no regular expression that can be compiled.
pub uninterp spec fn pattern_matches(pattern: Seq<char>, text: Seq<char>) -> Option<Seq<Seq<char>>>;

/// Whether each of `matches` stands in `text` at the place that `starts`
/// gives for it, each one after the end of the one before.
pub open spec fn placed(matches: Seq<Seq<char>>, text: Seq<char>, starts: Seq<int>) -> bool {
    &&& starts.len() == matches.len()
    &&& forall|i: int|
        0 <= i < matches.len() ==> 0 <= #[trigger] starts[i] && starts[i] + matches[i].len()
            <= text.len() && text.subrange(starts[i], starts[i] + matches[i].len()) == matches[i]
    &&& forall|i: int, j: int|
        0 <= i < j < matches.len() ==> #[trigger] starts[i] + matches[i].len() <= #[trigger] starts[j]
}

/// Whether `matches` are pieces of `text` that follow each other from
/// left to right without overlapping.
pub open spec fn in_order(matches: Seq<Seq<char>>, text: Seq<char>) -> bool {
    exists|starts: Seq<int>| #[trigger] placed(matches, text, starts)
}

/// Searches `text` for the matches of `pattern`.
///
/// Compiles the pattern with `regex::Regex::new`, walks the matches that
/// `Regex::find_iter` yields and copies out what `Match::as_str` gives for
/// each. The contract claims that the outcome depends on the pattern and
/// the text alone, and that the matches are pieces of the text, copied as
/// they are, that follow each other without overlapping. Nothing is
/// returned where the pattern is refused.
#[verifier::external_body]
fn find_matches(pattern: &str, text: &str) -> (found: Option<Vec<String>>)
    ensures
        match found {
            Some(matches) => pattern_matches(pattern@, text@) == Some(matches.deep_view()),
            None => pattern_matches(pattern@, text@) is None,
        },
        found matches Some(matches) ==> in_order(matches.deep_view(), text@),
{
    match regex::Regex::new(pattern) {
        Ok(regex) => Some(regex.find_iter(text).map(|m| m.as_str().to_string()).collect()),
        Err(_) => None,
    }
}

/// The status that a link gets without being probed, if it gets one:
/// ignored where the ignore list holds it, else cached where the cache
/// holds it. `None` says that the link has to be probed.
pub open spec fn skip_status(link: Seq<char>, ignore: Seq<Seq<char>>, cache: Set<Seq<char>>) -> Option<
    StatusView,
> {
    if ignore.contains(link) {
        Some(StatusView::Ignored)
    } else if cache.contains(link) {
        Some(StatusView::Cached)
    } else {
        None
    }
}

/// The links of one file while they are checked
///
/// The links are classified in the order in which they were found. A link
/// that has to be probed is handed out by [`Links::check`], and the check
/// waits until [`Links::record`] has been given the outcome.
pub struct Links {
    found: Vec<Link>,
    results: Results,
    waiting: bool,
}

impl Links {
    #[verifier::type_invariant]
    spec fn consistent(self) -> bool {
        &&& self.results@.len() <= self.found@.len()
        &&& forall|i: int|
            0 <= i < self.results@.len() ==> (#[trigger] self.results@[i]).0 == self.found@[i]@
        &&& self.waiting ==> self.results@.len() < self.found@.len()
    }

    /// The texts of the links under check, in the order in which they were found.
    pub closed spec fn links(&self) -> Seq<Seq<char>> {
        texts(self.found@)
    }

    /// The links classified so far, each with its status.
    pub closed spec fn results(&self) -> Seq<(Seq<char>, StatusView)> {
        self.results@
    }

    /// Whether the check waits for the outcome of a probe.
    pub closed spec fn waiting(&self) -> bool {
        self.waiting
    }

    /// Whether `results` holds the first of `links`, in their order, each
    /// with a status.
    pub open spec fn aligned(links: Seq<Seq<char>>, results: Seq<(Seq<char>, StatusView)>) -> bool {
        &&& results.len() <= links.len()
        &&& forall|i: int| 0 <= i < results.len() ==> (#[trigger] results[i]).0 == links[i]
    }

    /// What [`Links::check`] does to a check that waits for no outcome: the links from
    /// the first unclassified one up to the first that has to be probed get
    /// the status that [`skip_status`] gives them, and nothing else changes.
    pub open spec fn skipped(
        links: Seq<Seq<char>>,
        before: Seq<(Seq<char>, StatusView)>,
        after: Seq<(Seq<char>, StatusView)>,
        ignore: Seq<Seq<char>>,
        cache: Set<Seq<char>>,
    ) -> bool {
        &&& before.len() <= after.len() <= links.len()
        &&& after.take(before.len() as int) == before
        &&& forall|i: int|
            before.len() <= i < after.len() ==> (#[trigger] after[i]).0 == links[i] && skip_status(
                links[i],
                ignore,
                cache,
            ) == Some(after[i].1)
        &&& after.len() < links.len() ==> skip_status(links[after.len() as int], ignore, cache)
            is None
    }

    /// The links that are found in the text `content`: they depend on the
    /// text alone.
    pub open spec fn found_in(content: Seq<char>) -> Option<Seq<Seq<char>>> {
        pattern_matches(URL_PATTERN@, content)
    }

    /// A link that the ignore list holds gets its status without a probe,
    /// and that status is ignored, whether or not the cache holds the link too.
    pub proof fn lemma_ignore_precedence(
        link: Seq<char>,
        ignore: Seq<Seq<char>>,
        cache: Set<Seq<char>>,
    )
        requires
            ignore.contains(link),
        ensures
            skip_status(link, ignore, cache) == Some(StatusView::Ignored),
    {
    }

    /// A link that the cache holds and the ignore list does not gets its
    /// status without a probe, and that status is cached.
    pub proof fn lemma_cache_precedence(
        link: Seq<char>,
        ignore: Seq<Seq<char>>,
        cache: Set<Seq<char>>,
    )
        requires
            !ignore.contains(link),
            cache.contains(link),
        ensures
            skip_status(link, ignore, cache) == Some(StatusView::Cached),
    {
    }

    /// A link that [`Links::check`] hands out for a probe is neither
    /// ignored nor in the cache.
    pub proof fn lemma_probed_is_unknown(
        links: Seq<Seq<char>>,
        before: Seq<(Seq<char>, StatusView)>,
        after: Seq<(Seq<char>, StatusView)>,
        ignore: Seq<Seq<char>>,
        cache: Set<Seq<char>>,
    )
        requires
            Self::skipped(links, before, after, ignore, cache),
            after.len() < links.len(),
        ensures
            !ignore.contains(links[after.len() as int]),
            !cache.contains(links[after.len() as int]),
    {
    }

    /// Finds the links in `content`, the text of a file: the matches of
    /// [`URL_PATTERN`] from left to right, each taken verbatim.
    ///
    /// Returns nothing where the pattern is refused.
    pub fn find(content: &str) -> (found: Option<Vec<Link>>)
        ensures
            match Self::found_in(content@) {
                Some(matches) => found is Some && texts(found.unwrap()@) == matches,
                None => found is None,
            },
            found matches Some(links) ==> in_order(texts(links@), content@),
    {
        match find_matches(URL_PATTERN, content) {
            Some(matches) => Some(Self::from_matches(matches)),
            None => None,
        }
    }

    /// Finds the links of a file from what reading it gave: its text, or
    /// nothing where it could not be read. A file that could not be read
    /// has no links.
    ///
    /// Returns nothing where the pattern is refused.
    pub fn find_or_default(content: Option<&str>) -> (found: Option<Vec<Link>>)
        ensures
            match content {
                Some(text) => match Self::found_in(text@) {
                    Some(matches) => found is Some && texts(found.unwrap()@) == matches,
                    None => found is None,
                },
                None => found is Some && found.unwrap()@.len() == 0,
            },
            (content, found) matches (Some(text), Some(links)) ==> in_order(texts(links@), text@),
    {
        match content {
            Some(text) => Self::find(text),
            None => Some(Vec::new()),
        }
    }

    /// Makes a link of each matched text, in the same order.
    pub fn from_matches(matches: Vec<String>) -> (found: Vec<Link>)
        ensures
            texts(found@) == matches.deep_view(),
    {
        let mut found: Vec<Link> = Vec::new();
        let mut i: usize = 0;
        while i < matches.len()
            invariant
                i <= matches@.len(),
                found@.len() == i,
                forall|j: int| 0 <= j < i ==> found@[j]@ == matches@[j]@,
            decreases matches@.len() - i,
        {
            found.push(Link::from_match(matches[i].as_str()));
            i = i + 1;
        }
        found
    }

    /// Decides whether `link` is classified without a probe: ignored links
    /// first, then cached ones.
    pub fn plan(link: &Link, cli: &Cli, cache: &Cache) -> (status: Option<LinkStatus>)
        ensures
            match status {
                Some(s) => skip_status(link@, cli.ignored(), cache@) == Some(s@),
                None => skip_status(link@, cli.ignored(), cache@) is None,
            },
    {
        if cli.ignores(link) {
            Some(LinkStatus::Ignored)
        } else if cache.contains(link) {
            Some(LinkStatus::Cached)
        } else {
            None
        }
    }

    /// Starts the check of the links found in one file.
    pub fn new(found: Vec<Link>) -> (links: Self)
        ensures
            links.links() == texts(found@),
            links.results() == Seq::<(Seq<char>, StatusView)>::empty(),
            !links.waiting(),
    {
        Self { found, results: Results::new(), waiting: false }
    }

    /// Moves the parts out, leaving a check of no links.
    fn take(&mut self) -> (parts: (Vec<Link>, Results, bool))
        ensures
            old(self).links() == texts(parts.0@),
            old(self).results() == parts.1@,
            old(self).waiting() == parts.2,
            parts.1@.len() <= parts.0@.len(),
            forall|i: int| 0 <= i < parts.1@.len() ==> (#[trigger] parts.1@[i]).0 == parts.0@[i]@,
            parts.2 ==> parts.1@.len() < parts.0@.len(),
    {
        proof {
            use_type_invariant(&*self);
        }
        let mut taken = Self::new(Vec::new());
        std::mem::swap(self, &mut taken);
        let Links { found, results, waiting } = taken;
        (found, results, waiting)
    }

    /// Check every link up to the next one that has to be probed.
    ///
    /// Links ignored by cli arguments are skipped.
    /// Links in cache are skipped.
    ///
    /// Returns the link to probe, or nothing once every link has its status.
    /// While the outcome of a probe is awaited, the same link is returned
    /// and nothing changes.
    pub fn check(&mut self, cli: &Cli, cache: &Cache) -> (probe: Option<Link>)
        ensures
            final(self).links() == old(self).links(),
            Self::aligned(final(self).links(), final(self).results()),
            old(self).waiting() ==> final(self).results() == old(self).results(),
            !old(self).waiting() ==> Self::skipped(
                old(self).links(),
                old(self).results(),
                final(self).results(),
                cli.ignored(),
                cache@,
            ),
            probe is Some <==> final(self).waiting(),
            probe is Some <==> final(self).results().len() < final(self).links().len(),
            probe matches Some(link) ==> link@ == final(self).links()[final(self).results().len() as int],
    {
        let ghost before = self.results();
        let (found, mut results, mut waiting) = self.take();
        if waiting {
            let probe = Some(found[results.len()].clone());
            *self = Links { found, results, waiting };
            return probe;
        }
        let mut probe: Option<Link> = None;
        while !waiting && results.len() < found.len()
            invariant
                before.len() <= results@.len() <= found@.len(),
                results@.take(before.len() as int) == before,
                forall|i: int| 0 <= i < results@.len() ==> (#[trigger] results@[i]).0 == found@[i]@,
                forall|i: int|
                    before.len() <= i < results@.len() ==> skip_status(
                        found@[i]@,
                        cli.ignored(),
                        cache@,
                    ) == Some((#[trigger] results@[i]).1),
                waiting ==> results@.len() < found@.len(),
                waiting ==> skip_status(found@[results@.len() as int]@, cli.ignored(), cache@)
                    is None,
                probe is Some <==> waiting,
                probe matches Some(link) ==> link@ == found@[results@.len() as int]@,
            decreases found@.len() - results@.len() + if waiting { 0int } else { 1int },
        {
            let link = &found[results.len()];
            match Self::plan(link, cli, cache) {
                Some(status) => {
                    results.inserts(link, status);
                },
                None => {
                    probe = Some(link.clone());
                    waiting = true;
                },
            }
        }
        *self = Links { found, results, waiting };
        probe
    }

    /// Records the outcome of the probe of the link that [`Links::check`]
    /// returned last: the link gets the status that the outcome stands for,
    /// and a link determined alive is added to the cache.
    ///
    /// Returns whether an outcome was awaited. Where none was, nothing changes.
    pub fn record(&mut self, probe: &Probe, cache: &mut Cache) -> (recorded: bool)
        ensures
            recorded == old(self).waiting(),
            !final(self).waiting(),
            final(self).links() == old(self).links(),
            Self::aligned(final(self).links(), final(self).results()),
            recorded ==> old(self).results().len() < old(self).links().len(),
            recorded ==> final(self).results() == old(self).results().push(
                (old(self).links()[old(self).results().len() as int], probe.status()),
            ),
            recorded && probe.status() is Alive ==> final(cache)@ == old(cache)@.insert(
                old(self).links()[old(self).results().len() as int],
            ),
            !recorded ==> final(self).results() == old(self).results(),
            !(recorded && probe.status() is Alive) ==> final(cache)@ == old(cache)@,
            old(cache)@.subset_of(final(cache)@),
    {
        let (found, mut results, waiting) = self.take();
        if waiting {
            let link = &found[results.len()];
            let status = link.alive(probe);
            if status == LinkStatus::Alive {
                cache.inserts(link);
            }
            results.inserts(link, status);
        }
        *self = Links { found, results, waiting: false };
        waiting
    }

    /// Ends the check and hands over the results of the links classified so far.
    pub fn into_results(self) -> (results: Results)
        ensures
            results@ == self.results(),
            Self::aligned(self.links(), results@),
    {
        proof {
            use_type_invariant(&self);
        }
        let Links { found, results, waiting } = self;
        results
    }
}

} // verus!
