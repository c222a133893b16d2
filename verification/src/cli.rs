//! This module contains the arguments of a run

use vstd::prelude::*;
use vstd::string::StringExecFns;

use crate::files::links::link::Link;

verus! {

/// Represents the arguments given to the cli
pub struct Cli {
    /// Paths to recursively search
    pub path: Vec<String>,
    /// Unix-style globs to validate files
    pub glob: Vec<String>,
    /// Unix-style globs to exclude files
    pub exclude: Vec<String>,
    /// Links to ignore checking
    pub ignore: Vec<Link>,
    /// Hidden files and directories are processed
    pub hidden: bool,
    /// Only list files that would be processed
    pub list: bool,
    /// Only list links that would be checked
    pub dry: bool,
}

/// What a run does with the files it finds
#[derive(Clone, Copy, Debug, PartialEq, Eq, Structural)]
pub enum Mode {
    /// Only the paths of the files are listed.
    List,
    /// The paths are listed, each with the links that would be checked.
    Dry,
    /// The links are checked and dead ones make the run fail.
    Check,
}

impl Default for Cli {
    fn default() -> (cli: Self)
        ensures
            cli.path@.len() == 1,
            cli.path@[0]@ == "."@,
            cli.glob@.len() == 1,
            cli.glob@[0]@ == "**"@,
            cli.exclude@.len() == 0,
            cli.ignore@.len() == 0,
            !cli.hidden,
            !cli.list,
            !cli.dry,
    {
        let mut path: Vec<String> = Vec::new();
        path.push(String::from_str("."));
        let mut glob: Vec<String> = Vec::new();
        glob.push(String::from_str("**"));
        Self {
            path,
            glob,
            exclude: Vec::new(),
            ignore: Vec::new(),
            hidden: false,
            list: false,
            dry: false,
        }
    }
}

impl Cli {
    /// The links to ignore, each as its text.
    pub open spec fn ignored(&self) -> Seq<Seq<char>> {
        self.ignore@.map_values(|link: Link| link@)
    }

    /// The mode that the flags select: `dry` goes before `list`, and links
    /// are checked when neither is set.
    pub open spec fn spec_mode(&self) -> Mode {
        if self.dry {
            Mode::Dry
        } else if self.list {
            Mode::List
        } else {
            Mode::Check
        }
    }

    /// Whether `link` is one of the links to ignore, by exact equality of the texts.
    pub fn ignores(&self, link: &Link) -> (found: bool)
        ensures
            found == self.ignored().contains(link@),
    {
        let mut i: usize = 0;
        while i < self.ignore.len()
            invariant
                i <= self.ignore@.len(),
                forall|j: int| 0 <= j < i ==> self.ignored()[j] != link@,
            decreases self.ignore@.len() - i,
        {
            if self.ignore[i] == *link {
                assert(self.ignored()[i as int] == link@);
                return true;
            }
            i = i + 1;
        }
        false
    }
}

} // verus!
