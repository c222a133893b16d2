//! Plain report lines for a link, by the kind of outcome

use vstd::prelude::*;
use vstd::string::StringExecFns;

use crate::files::links::link::{build_line, report_line};
use crate::style::{paint, painted, Tint};

verus! {

/// A link as the report lines show it
pub struct Link {
    link: String,
}

impl View for Link {
    type V = Seq<char>;

    closed spec fn view(&self) -> Seq<char> {
        self.link@
    }
}

impl Link {
    /// Creates a link from its text.
    pub fn new(link: &str) -> (created: Self)
        ensures
            created@ == link@,
    {
        Self { link: String::from_str(link) }
    }

    /// The line that shows the link alone: a tab, then the link, blue and underlined.
    pub fn print(&self) -> (line: String)
        ensures
            line@ == "\t"@ + painted(Tint::BlueUnderlined, self@),
    {
        let mut line = String::from_str("\t");
        line.append(paint(Tint::BlueUnderlined, self.link.as_str()).as_str());
        line
    }

    /// The line of an OK response
    pub fn ok(&self, reason: &str) -> (line: String)
        ensures
            line@ == report_line(
                painted(Tint::Green, "[OK]"@),
                painted(Tint::BlueUnderlined, self@),
                reason@,
            ),
    {
        let link = paint(Tint::BlueUnderlined, self.link.as_str());
        build_line(paint(Tint::Green, "[OK]"), link, reason)
    }

    /// The line of a warning response
    pub fn warn(&self, reason: &str) -> (line: String)
        ensures
            line@ == report_line(
                painted(Tint::Yellow, "[WARN]"@),
                painted(Tint::BlueUnderlined, self@),
                painted(Tint::Yellow, reason@),
            ),
    {
        let link = paint(Tint::BlueUnderlined, self.link.as_str());
        let reason = paint(Tint::Yellow, reason);
        build_line(paint(Tint::Yellow, "[WARN]"), link, reason.as_str())
    }

    /// The line of an error response
    pub fn err(&self, reason: &str) -> (line: String)
        ensures
            line@ == report_line(
                painted(Tint::Red, "[ERR]"@),
                painted(Tint::BlueUnderlined, self@),
                painted(Tint::Red, reason@),
            ),
    {
        let link = paint(Tint::BlueUnderlined, self.link.as_str());
        let reason = paint(Tint::Red, reason);
        build_line(paint(Tint::Red, "[ERR]"), link, reason.as_str())
    }

    /// The line of a cached link
    pub fn cache(&self, reason: &str) -> (line: String)
        ensures
            line@ == report_line(
                painted(Tint::GreenDimmed, "[CACHE]"@),
                painted(Tint::BlueDimmedUnderlined, self@),
                painted(Tint::Dimmed, reason@),
            ),
    {
        let link = paint(Tint::BlueDimmedUnderlined, self.link.as_str());
        let reason = paint(Tint::Dimmed, reason);
        build_line(paint(Tint::GreenDimmed, "[CACHE]"), link, reason.as_str())
    }
}

} // verus!
