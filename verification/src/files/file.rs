//! The file module groups everything related to a single file

use vstd::prelude::*;
use vstd::string::StringExecFns;

use crate::cli::Cli;
use crate::files::links::link::{link_text, texts, Link};
use crate::files::links::results::{listing, Results};
use crate::style::{paint, painted, Tint};

verus! {

/// Represents a file with possible links
#[derive(PartialEq, Eq, Debug, PartialOrd, Ord)]
pub struct File {
    /// Relative path to the file
    path: String,
}

/// How the file at `path` is shown in a report: its path, dimmed.
pub open spec fn file_text(path: Seq<char>) -> Seq<char> {
    painted(Tint::Dimmed, path)
}

/// The links among `found` that a dry run shows: those that the ignore list
/// does not hold, in their order.
pub open spec fn shown(found: Seq<Seq<char>>, ignore: Seq<Seq<char>>) -> Seq<Seq<char>> {
    found.filter(|link: Seq<char>| !ignore.contains(link))
}

/// The line of a dry run for the link `link`: a tab, then the link.
pub open spec fn shown_line(link: Seq<char>) -> Seq<char> {
    "\t"@ + link_text(link)
}

/// The lines of a dry run for the links `found`: the line of each link
/// that is shown.
pub open spec fn shown_lines(found: Seq<Seq<char>>, ignore: Seq<Seq<char>>) -> Seq<Seq<char>> {
    shown(found, ignore).map_values(|link: Seq<char>| shown_line(link))
}

impl View for File {
    type V = Seq<char>;

    closed spec fn view(&self) -> Seq<char> {
        self.path@
    }
}

impl File {
    /// Creates a new file form its path
    pub fn new(path: &str) -> (file: Self)
        ensures
            file@ == path@,
    {
        Self { path: String::from_str(path) }
    }

    /// The path of the file
    pub fn path(&self) -> (path: &str)
        ensures
            path@ == self@,
    {
        self.path.as_str()
    }

    /// Formats the file as a report shows it
    pub fn render(&self) -> (text: String)
        ensures
            text@ == file_text(self@),
    {
        paint(Tint::Dimmed, self.path.as_str())
    }

    /// The report of this file once its links have been checked: the file,
    /// followed by the listing of `results`.
    pub fn check(&self, results: &Results) -> (report: String)
        ensures
            report@ == file_text(self@) + listing(results@),
    {
        let mut report = self.render();
        let listing = results.render();
        report.append(listing.as_str());
        report
    }

    /// The lines that show the links found in this file: one for each of
    /// `found` that the cli arguments do not ignore.
    pub fn print_links(&self, found: &Vec<Link>, cli: &Cli) -> (lines: Vec<String>)
        ensures
            lines.deep_view() == shown_lines(texts(found@), cli.ignored()),
    {
        let ghost all = texts(found@);
        let ghost ignore = cli.ignored();
        let mut lines: Vec<String> = Vec::new();
        let mut i: usize = 0;
        while i < found.len()
            invariant
                i <= found@.len(),
                all == texts(found@),
                ignore == cli.ignored(),
                lines.deep_view() == shown_lines(all.take(i as int), ignore),
            decreases found@.len() - i,
        {
            proof {
                reveal(Seq::filter);
                assert(all.take(i + 1).drop_last() =~= all.take(i as int));
            }
            if !cli.ignores(&found[i]) {
                let mut line = String::from_str("\t");
                line.append(found[i].render().as_str());
                lines.push(line);
                assert(shown_lines(all.take(i + 1), ignore) =~= shown_lines(
                    all.take(i as int),
                    ignore,
                ).push(shown_line(found@[i as int]@)));
            }
            i = i + 1;
        }
        assert(all.take(i as int) =~= all);
        lines
    }
}

} // verus!
