//! Search for dead links in any kind of file.
//!
//! The crate holds the link-resolution pipeline: extracting links from text,
//! classifying each of them, remembering the ones known to be alive and
//! aggregating the outcome of a run. It performs no input or output itself:
//! a caller reads the files, sends the requests and prints the reports.

use vstd::prelude::*;

pub use crate::cli::{Cli, Mode};
pub use crate::files::file::File;
use crate::files::file::{file_text, shown_lines};
pub use crate::files::links::cache::Cache;
use crate::files::links::link::texts;
pub use crate::files::links::link::{HttpStatus, Kind, Link, LinkStatus, Probe, StatusView};
use crate::files::links::results::count_kind;
pub use crate::files::links::results::Results;
pub use crate::files::links::Links;
pub use crate::files::Files;

pub mod cli;
pub mod files;
pub mod log;
pub mod style;

verus! {

/// Represents the application
pub struct App;

impl Default for App {
    fn default() -> Self {
        Self::new()
    }
}

impl App {
    /// Creates a new app
    pub fn new() -> Self {
        Self {  }
    }

    /// Selects what a run does according to cli arguments: a dry run where
    /// `dry` is set, else a listing where `list` is set, else a check.
    pub fn run(&self, cli: &Cli) -> (mode: Mode)
        ensures
            mode == cli.spec_mode(),
    {
        if cli.dry {
            Mode::Dry
        } else if cli.list {
            Mode::List
        } else {
            Mode::Check
        }
    }

    /// Gives the verdict on the results of a run. Fails if at least one
    /// link is considered dead, with the number of dead links.
    pub fn check(&self, results: &Results) -> (verdict: Result<(), usize>)
        ensures
            match verdict {
                Ok(_) => count_kind(results@, Kind::Dead) == 0,
                Err(dead_links) => dead_links > 0 && dead_links == count_kind(results@, Kind::Dead),
            },
    {
        let dead_links = results.count_with(LinkStatus::Dead(String::new()));
        if dead_links == 0 {
            Ok(())
        } else {
            Err(dead_links)
        }
    }

    /// The lines that list one file: the file, then, in a dry run, each of
    /// the links `found` in it that the cli arguments do not ignore.
    pub fn list(&self, cli: &Cli, file: &File, found: &Vec<Link>) -> (lines: Vec<String>)
        ensures
            lines.deep_view() == seq![file_text(file@)] + if cli.dry {
                shown_lines(texts(found@), cli.ignored())
            } else {
                Seq::empty()
            },
    {
        let mut lines: Vec<String> = Vec::new();
        lines.push(file.render());
        if cli.dry {
            let mut links = file.print_links(found, cli);
            lines.append(&mut links);
        }
        lines
    }
}

} // verus!
