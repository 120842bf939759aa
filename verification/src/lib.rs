//! Plain text as an error value.
//!
//! This library turns a piece of text, supplied borrowed or owned, into a
//! small error value that can be queried for its description, rendered as
//! display text, and asked for an underlying cause (there never is one).

use vstd::prelude::*;
use vstd::string::StringExecFns;

verus! {

/// An error value that carries nothing but text.
///
/// The `Static` variant borrows text that lives for the whole process and
/// performs no copy; the `Owned` variant holds its own copy. The stored
/// text never changes after construction, and no variant links to another
/// error.
#[derive(Debug)]
pub enum TextError {
    Static { text: &'static str },
    Owned { text: String },
}

impl TextError {
    /// The stored text, the error's description.
    pub open spec fn text(self) -> Seq<char> {
        match self {
            TextError::Static { text } => text@,
            TextError::Owned { text } => text@,
        }
    }

    /// Whether the error borrows process-lifetime text rather than owning a copy.
    pub open spec fn is_static_text(self) -> bool {
        self is Static
    }

    /// The text that `display` renders: the stored text itself for borrowed
    /// static text, and the stored text behind an `"Error: "` label for an
    /// owned copy. The asymmetry is deliberate, kept for compatibility.
    pub open spec fn display_text(self) -> Seq<char> {
        if self.is_static_text() {
            self.text()
        } else {
            "Error: "@ + self.text()
        }
    }

    /// Returns the stored text unchanged.
    pub fn description(&self) -> (r: &str)
        ensures
            r@ == self.text(),
    {
        match self {
            TextError::Static { text } => text,
            TextError::Owned { text } => text.as_str(),
        }
    }

    /// Renders the error as human-readable text: the stored text, prefixed
    /// with `"Error: "` when the error owns its copy of the text.
    pub fn display(&self) -> (r: String)
        ensures
            r@ == self.display_text(),
    {
        match self {
            TextError::Static { text } => String::from_str(text),
            TextError::Owned { text } => String::from_str("Error: ").concat(text.as_str()),
        }
    }

    /// The underlying cause of this error: there never is one, since a
    /// `TextError` never wraps another error.
    pub fn cause(&self) -> (r: Option<&TextError>)
        ensures
            r is None,
    {
        None
    }
}

/// Creates an error from a string constant (`&'static str`).
///
/// The text is borrowed, not copied.
pub fn static_err(e: &'static str) -> (r: TextError)
    ensures
        r.is_static_text(),
        r.text() == e@,
{
    TextError::Static { text: e }
}

/// Creates an error from a borrowed string (`&str`).
///
/// This copies the argument into an owned string. To avoid the copy, use
/// either `into_err` or `static_err`.
pub fn new_err(e: &str) -> (r: TextError)
    ensures
        !r.is_static_text(),
        r.text() == e@,
{
    TextError::Owned { text: String::from_str(e) }
}

/// Creates an error from an owned string (`String`).
///
/// This takes ownership of the argument; no copy is made.
pub fn into_err(e: String) -> (r: TextError)
    ensures
        !r.is_static_text(),
        r.text() == e@,
{
    TextError::Owned { text: e }
}

/// An error built by `static_err` from text `t` describes itself as exactly
/// `t`: the first premise is what `static_err` ensures of its result, the
/// second what `description` ensures of that result.
pub proof fn lemma_static_err_describes_input(t: Seq<char>, r: TextError, d: Seq<char>)
    requires
        r.is_static_text(),
        r.text() == t,
        d == r.text(),
    ensures
        d == t,
{
}

/// An error built by `new_err` or `into_err` from text `t` describes itself
/// as exactly `t`: the first premise is what both factories ensure of their
/// result, the second what `description` ensures of that result.
pub proof fn lemma_owned_err_describes_input(t: Seq<char>, r: TextError, d: Seq<char>)
    requires
        !r.is_static_text(),
        r.text() == t,
        d == r.text(),
    ensures
        d == t,
{
}

/// An error built by `static_err` from text `t` displays exactly `t`, with
/// no prefix: the premises are what `static_err` and `display` ensure.
pub proof fn lemma_static_err_displays_input(t: Seq<char>, r: TextError, s: Seq<char>)
    requires
        r.is_static_text(),
        r.text() == t,
        s == r.display_text(),
    ensures
        s == t,
{
}

/// An error built by `new_err` or `into_err` from text `t` displays
/// `"Error: "` followed by `t`: the premises are what those factories and
/// `display` ensure.
pub proof fn lemma_owned_err_displays_input(t: Seq<char>, r: TextError, s: Seq<char>)
    requires
        !r.is_static_text(),
        r.text() == t,
        s == r.display_text(),
    ensures
        s == "Error: "@ + t,
{
}

/// Reading an error twice yields identical results: the contracts of
/// `description` and `display` pin each result as a function of the
/// (immutable) error value alone, so any two reads agree.
pub proof fn lemma_repeated_reads_agree(
    r: TextError,
    d1: Seq<char>,
    d2: Seq<char>,
    s1: Seq<char>,
    s2: Seq<char>,
)
    requires
        d1 == r.text(),
        d2 == r.text(),
        s1 == r.display_text(),
        s2 == r.display_text(),
    ensures
        d1 == d2,
        s1 == s2,
{
}

} // verus!
