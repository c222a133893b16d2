//! Groups data structures related to a single link.
//!
//! This module contains a link wrapper, a link status and the outcome of a
//! probe from which a status is derived.

use vstd::prelude::*;
use vstd::std_specs::cmp::PartialEqSpecImpl;
use vstd::string::StringExecFns;

use crate::style::{paint, painted, Tint};

verus! {

/// The kind of a [`LinkStatus`], without the reason it may carry.
#[derive(Clone, Copy, Debug, PartialEq, Eq, Structural)]
pub enum Kind {
    /// See [`LinkStatus::Alive`]
    Alive,
    /// See [`LinkStatus::Dead`]
    Dead,
    /// See [`LinkStatus::Warn`]
    Warn,
    /// See [`LinkStatus::Cached`]
    Cached,
    /// See [`LinkStatus::Ignored`]
    Ignored,
}

/// Mathematical model of a [`LinkStatus`]: the reasons are sequences of characters.
pub enum StatusView {
    /// Model of [`LinkStatus::Alive`]
    Alive,
    /// Model of [`LinkStatus::Dead`]
    Dead(Seq<char>),
    /// Model of [`LinkStatus::Warn`]
    Warn(Seq<char>),
    /// Model of [`LinkStatus::Cached`]
    Cached,
    /// Model of [`LinkStatus::Ignored`]
    Ignored,
}

impl StatusView {
    /// The kind of this status: its variant, whatever the reason.
    pub open spec fn kind(self) -> Kind {
        match self {
            StatusView::Alive => Kind::Alive,
            StatusView::Dead(_) => Kind::Dead,
            StatusView::Warn(_) => Kind::Warn,
            StatusView::Cached => Kind::Cached,
            StatusView::Ignored => Kind::Ignored,
        }
    }
}

/// Represents the status of a link in the process
#[derive(Debug)]
pub enum LinkStatus {
    /// The link is alive (returned 2xx)
    Alive,
    /// The link is dead (returned other than 2xx).
    /// The value is the reason.
    ///
    /// This has a chance of being false because some websites block bots.
    Dead(String),
    /// There was a problem getting a response
    /// The value is the reason.
    Warn(String),
    /// Link was already tested and is in cache
    Cached,
    /// Link has been ignored
    Ignored,
}

impl View for LinkStatus {
    type V = StatusView;

    open spec fn view(&self) -> StatusView {
        match self {
            LinkStatus::Alive => StatusView::Alive,
            LinkStatus::Dead(reason) => StatusView::Dead(reason@),
            LinkStatus::Warn(reason) => StatusView::Warn(reason@),
            LinkStatus::Cached => StatusView::Cached,
            LinkStatus::Ignored => StatusView::Ignored,
        }
    }
}

impl Clone for LinkStatus {
    fn clone(&self) -> (copy: Self)
        ensures
            copy@ == self@,
    {
        match self {
            LinkStatus::Alive => LinkStatus::Alive,
            LinkStatus::Dead(reason) => LinkStatus::Dead(reason.clone()),
            LinkStatus::Warn(reason) => LinkStatus::Warn(reason.clone()),
            LinkStatus::Cached => LinkStatus::Cached,
            LinkStatus::Ignored => LinkStatus::Ignored,
        }
    }
}

impl PartialEq for LinkStatus {
    fn eq(&self, other: &LinkStatus) -> (same: bool) {
        match (self, other) {
            (LinkStatus::Alive, LinkStatus::Alive) => true,
            (LinkStatus::Dead(a), LinkStatus::Dead(b)) => *a == *b,
            (LinkStatus::Warn(a), LinkStatus::Warn(b)) => *a == *b,
            (LinkStatus::Cached, LinkStatus::Cached) => true,
            (LinkStatus::Ignored, LinkStatus::Ignored) => true,
            _ => false,
        }
    }
}

impl PartialEqSpecImpl for LinkStatus {
    open spec fn obeys_eq_spec() -> bool {
        true
    }

    open spec fn eq_spec(&self, other: &LinkStatus) -> bool {
        self@ == other@
    }
}

impl LinkStatus {
    /// The variant of this status, whatever reason it carries.
    pub fn kind(&self) -> (kind: Kind)
        ensures
            kind == self@.kind(),
    {
        match self {
            LinkStatus::Alive => Kind::Alive,
            LinkStatus::Dead(_) => Kind::Dead,
            LinkStatus::Warn(_) => Kind::Warn,
            LinkStatus::Cached => Kind::Cached,
            LinkStatus::Ignored => Kind::Ignored,
        }
    }
}

/// A line of a report: a tab, then the tag, the link and the reason with a
/// space between them.
pub open spec fn report_line(tag: Seq<char>, link: Seq<char>, reason: Seq<char>) -> Seq<char> {
    "\t"@ + tag + " "@ + link + " "@ + reason
}

/// How the link with the text `link` is shown: blue and underlined.
pub open spec fn link_text(link: Seq<char>) -> Seq<char> {
    painted(Tint::BlueUnderlined, link)
}

/// The report line of a link that is alive.
pub open spec fn ok_line(link: Seq<char>, reason: Seq<char>) -> Seq<char> {
    report_line(painted(Tint::Green, "[OK]"@), link_text(link), reason)
}

/// The report line of a link whose probe could not be completed.
pub open spec fn warn_line(link: Seq<char>, reason: Seq<char>) -> Seq<char> {
    report_line(painted(Tint::Yellow, "[WARN]"@), link_text(link), painted(Tint::Yellow, reason))
}

/// The report line of a dead link.
pub open spec fn err_line(link: Seq<char>, reason: Seq<char>) -> Seq<char> {
    report_line(painted(Tint::Red, "[ERR]"@), link_text(link), painted(Tint::Red, reason))
}

/// The report line of a link found in the cache.
pub open spec fn cache_line(link: Seq<char>, reason: Seq<char>) -> Seq<char> {
    report_line(
        painted(Tint::GreenDimmed, "[CACHE]"@),
        painted(Tint::Dimmed, link_text(link)),
        painted(Tint::Dimmed, reason),
    )
}

/// The report line of an ignored link.
pub open spec fn ignored_line(link: Seq<char>, reason: Seq<char>) -> Seq<char> {
    report_line(
        painted(Tint::Dimmed, "[IGNORED]"@),
        painted(Tint::Dimmed, link_text(link)),
        painted(Tint::Dimmed, reason),
    )
}

/// The report line of a link with the given status: the tag of the status'
/// kind, the link, and the reason where the status carries one.
pub open spec fn entry_line(link: Seq<char>, status: StatusView) -> Seq<char> {
    match status {
        StatusView::Alive => ok_line(link, Seq::empty()),
        StatusView::Dead(reason) => err_line(link, reason),
        StatusView::Warn(reason) => warn_line(link, reason),
        StatusView::Cached => cache_line(link, Seq::empty()),
        StatusView::Ignored => ignored_line(link, Seq::empty()),
    }
}

/// Puts a report line together.
pub(crate) fn build_line(tag: String, link: String, reason: &str) -> (line: String)
    ensures
        line@ == report_line(tag@, link@, reason@),
{
    let mut line = String::from_str("\t");
    line.append(tag.as_str());
    line.append(" ");
    line.append(link.as_str());
    line.append(" ");
    line.append(reason);
    line
}

/// The texts of `links`, in their order.
pub open spec fn texts(links: Seq<Link>) -> Seq<Seq<char>> {
    links.map_values(|link: Link| link@)
}

/// Represents a single link that can be checked or formatted
#[derive(Debug)]
pub struct Link {
    link: String,
}

impl View for Link {
    type V = Seq<char>;

    closed spec fn view(&self) -> Seq<char> {
        self.link@
    }
}

impl Clone for Link {
    fn clone(&self) -> (copy: Self)
        ensures
            copy@ == self@,
    {
        Link { link: self.link.clone() }
    }
}

impl PartialEq for Link {
    fn eq(&self, other: &Link) -> (same: bool) {
        self.link == other.link
    }
}

impl PartialEqSpecImpl for Link {
    open spec fn obeys_eq_spec() -> bool {
        true
    }

    open spec fn eq_spec(&self, other: &Link) -> bool {
        self@ == other@
    }
}

impl Link {
    /// Creates a new link from `s`.
    ///
    /// Link validity is not guaranteed.
    pub fn new(s: &String) -> (link: Self)
        ensures
            link@ == s@,
    {
        Self { link: s.clone() }
    }

    /// Creates a new link from the text of a pattern match, taken verbatim.
    ///
    /// Link validity is not guaranteed.
    pub fn from_match(m: &str) -> (link: Self)
        ensures
            link@ == m@,
    {
        Self { link: String::from_str(m) }
    }

    /// The text of the link.
    pub fn as_str(&self) -> (s: &str)
        ensures
            s@ == self@,
    {
        self.link.as_str()
    }

    /// Formats the link alone, as a report shows it
    pub fn render(&self) -> (text: String)
        ensures
            text@ == link_text(self@),
    {
        paint(Tint::BlueUnderlined, self.link.as_str())
    }

    /// Formats the link for an OK response
    pub fn ok(&self, reason: &str) -> (line: String)
        ensures
            line@ == ok_line(self@, reason@),
    {
        build_line(paint(Tint::Green, "[OK]"), self.render(), reason)
    }

    /// Formats the link as a warning response
    pub fn warn(&self, reason: &str) -> (line: String)
        ensures
            line@ == warn_line(self@, reason@),
    {
        let reason = paint(Tint::Yellow, reason);
        build_line(paint(Tint::Yellow, "[WARN]"), self.render(), reason.as_str())
    }

    /// Formats the link as an error response
    pub fn err(&self, reason: &str) -> (line: String)
        ensures
            line@ == err_line(self@, reason@),
    {
        let reason = paint(Tint::Red, reason);
        build_line(paint(Tint::Red, "[ERR]"), self.render(), reason.as_str())
    }

    /// Formats the link as cached
    pub fn cache(&self, reason: &str) -> (line: String)
        ensures
            line@ == cache_line(self@, reason@),
    {
        let link = paint(Tint::Dimmed, self.render().as_str());
        let reason = paint(Tint::Dimmed, reason);
        build_line(paint(Tint::GreenDimmed, "[CACHE]"), link, reason.as_str())
    }

    /// Formats the link as ignored (i.e. by cli args)
    pub fn ignored(&self, reason: &str) -> (line: String)
        ensures
            line@ == ignored_line(self@, reason@),
    {
        let link = paint(Tint::Dimmed, self.render().as_str());
        let reason = paint(Tint::Dimmed, reason);
        build_line(paint(Tint::Dimmed, "[IGNORED]"), link, reason.as_str())
    }

    /// Formats the link with the status it was given
    pub fn report(&self, status: &LinkStatus) -> (line: String)
        ensures
            line@ == entry_line(self@, status@),
    {
        proof {
            reveal_strlit("");
        }
        match status {
            LinkStatus::Alive => self.ok(""),
            LinkStatus::Dead(reason) => self.err(reason.as_str()),
            LinkStatus::Warn(reason) => self.warn(reason.as_str()),
            LinkStatus::Cached => self.cache(""),
            LinkStatus::Ignored => self.ignored(""),
        }
    }

    /// Classifies the link from the outcome of the single probe sent to it.
    ///
    /// Returns the status of the link.
    /// The link can be [alive](LinkStatus::Alive), [dead](LinkStatus::Dead) or generate a [warning](LinkStatus::Warn).
    pub fn alive(&self, probe: &Probe) -> (status: LinkStatus)
        ensures
            status@ == probe.status(),
    {
        match probe {
            Probe::Failed => {
                let reason = String::from_str("Too many redirections");
                LinkStatus::Warn(reason)
            },
            Probe::Answered(answer) => {
                if answer.is_success() {
                    LinkStatus::Alive
                } else {
                    LinkStatus::Dead(answer.text())
                }
            },
        }
    }
}

/// The textual rendering of the HTTP status with the number `code`, such
/// as `404 Not Found`.
pub uninterp spec fn status_name(code: u16) -> Seq<char>;

/// Renders a status code as text.
///
/// Calls `reqwest::StatusCode::from_u16`, then the status code's `Display`
/// implementation through `to_string`. The contract claims that a text is
/// returned exactly for the numbers the conversion accepts, those from 100
/// up to 999, and that the text depends on the number alone.
#[verifier::external_body]
fn status_text(code: u16) -> (text: Option<String>)
    ensures
        text is Some <==> 100 <= code < 1000,
        text matches Some(t) ==> t@ == status_name(code),
{
    match reqwest::StatusCode::from_u16(code) {
        Ok(status) => Some(status.to_string()),
        Err(_) => None,
    }
}

/// The status code of an HTTP response: a number from 100 up to 999.
#[derive(Clone, Copy, Debug)]
pub struct HttpStatus {
    code: u16,
}

impl View for HttpStatus {
    type V = u16;

    closed spec fn view(&self) -> u16 {
        self.code
    }
}

impl HttpStatus {
    #[verifier::type_invariant]
    spec fn in_range(self) -> bool {
        100 <= self.code < 1000
    }

    /// Whether `code` can be the status code of a response.
    pub open spec fn valid(code: u16) -> bool {
        100 <= code < 1000
    }

    /// Whether a response with the status code `code` reports success.
    pub open spec fn success(code: u16) -> bool {
        200 <= code < 300
    }

    /// Creates a status from its number, if it is one.
    pub fn new(code: u16) -> (status: Option<Self>)
        ensures
            status is Some <==> Self::valid(code),
            status matches Some(s) ==> s@ == code,
    {
        if 100 <= code && code < 1000 {
            Some(Self { code })
        } else {
            None
        }
    }

    /// The number of the status.
    pub fn code(&self) -> (code: u16)
        ensures
            code == self@,
            Self::valid(code),
    {
        proof {
            use_type_invariant(self);
        }
        self.code
    }

    /// Check if status is within 200-299.
    pub fn is_success(&self) -> (success: bool)
        ensures
            success == Self::success(self@),
    {
        200 <= self.code && self.code < 300
    }

    /// The textual rendering of the status, such as `404 Not Found`.
    pub fn text(&self) -> (text: String)
        ensures
            text@ == status_name(self@),
    {
        proof {
            use_type_invariant(self);
        }
        match status_text(self.code) {
            Some(text) => text,
            None => String::new(),
        }
    }
}

/// The outcome of the one request sent to a link.
#[derive(Clone, Copy, Debug)]
pub enum Probe {
    /// The request could not be completed.
    Failed,
    /// A response was obtained, with this status.
    Answered(HttpStatus),
}

impl Probe {
    /// The reason recorded for every request that could not be completed.
    pub open spec fn failure_reason() -> Seq<char> {
        "Too many redirections"@
    }

    /// The status that a link gets from this outcome: a warning where the
    /// request failed, alive for a 2xx response, else dead with the
    /// response's status as text.
    pub open spec fn status(self) -> StatusView {
        match self {
            Probe::Failed => StatusView::Warn(Self::failure_reason()),
            Probe::Answered(answer) => if HttpStatus::success(answer@) {
                StatusView::Alive
            } else {
                StatusView::Dead(status_name(answer@))
            },
        }
    }
}

} // verus!
