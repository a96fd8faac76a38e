//! The error kinds that the server answers with, and the error reply it
//! sends for a refused request.
use vstd::prelude::*;
use vstd::std_specs::convert::FromSpecImpl;
use crate::text::concat;

verus! {

/// Why a request was refused; the text says where.
#[derive(Debug, PartialEq, Eq)]
pub enum WarpRejections {
    SerializationError(String),
    UuidError(String),
    EnvError(String),
    AutocompleteError(String),
    AuthError(String),
    SqlxError(String),
    GroupNotExist(String),
    UserNotInGroup(String),
    UserNotExist(String),
    UserNotAuthorized(String),
    Other(String),
}

/// How `{:?}` prints a text: quoted, with the characters that need it
/// escaped.
pub uninterp spec fn debug_quoted(s: Seq<char>) -> Seq<char>;

/// The characters that `{:?}` prints as they are inside a quoted text: the
/// printable ASCII characters other than the quote and the backslash.
pub open spec fn prints_plainly(c: char) -> bool {
    ' ' <= c && c <= '~' && c != '"' && c != '\\'
}

/// Prints the text with `{:?}`, the standard library's `Debug` for `str`.
/// The contract names the result, and states what the documentation of
/// `char::escape_debug` gives for the plain case: a text of printable ASCII
/// characters other than the quote and the backslash is printed between
/// quotes, unchanged.
#[verifier::external_body]
pub(crate) fn debug_text(s: &str) -> (res: String)
    ensures
        res@ == debug_quoted(s@),
        (forall|i: int| 0 <= i < s@.len() ==> prints_plainly(#[trigger] s@[i])) ==> res@ == "\""@
            + s@ + "\""@,
{
    format!("{:?}", s)
}

/// The variant's name and its text.
pub open spec fn rejection_parts(e: WarpRejections) -> (Seq<char>, Seq<char>) {
    match e {
        WarpRejections::SerializationError(m) => ("SerializationError"@, m@),
        WarpRejections::UuidError(m) => ("UuidError"@, m@),
        WarpRejections::EnvError(m) => ("EnvError"@, m@),
        WarpRejections::AutocompleteError(m) => ("AutocompleteError"@, m@),
        WarpRejections::AuthError(m) => ("AuthError"@, m@),
        WarpRejections::SqlxError(m) => ("SqlxError"@, m@),
        WarpRejections::GroupNotExist(m) => ("GroupNotExist"@, m@),
        WarpRejections::UserNotInGroup(m) => ("UserNotInGroup"@, m@),
        WarpRejections::UserNotExist(m) => ("UserNotExist"@, m@),
        WarpRejections::UserNotAuthorized(m) => ("UserNotAuthorized"@, m@),
        WarpRejections::Other(m) => ("Other"@, m@),
    }
}

/// How an error prints: `Variant("text")`, the text as `{:?}` prints it.
pub open spec fn rejection_text(e: WarpRejections) -> Seq<char> {
    let (name, m) = rejection_parts(e);
    name + "("@ + debug_quoted(m) + ")"@
}

impl WarpRejections {
    /// How the error prints.
    pub fn text(&self) -> (res: String)
        ensures
            res@ == rejection_text(*self),
    {
        let (name, m) = match self {
            WarpRejections::SerializationError(m) => ("SerializationError", m),
            WarpRejections::UuidError(m) => ("UuidError", m),
            WarpRejections::EnvError(m) => ("EnvError", m),
            WarpRejections::AutocompleteError(m) => ("AutocompleteError", m),
            WarpRejections::AuthError(m) => ("AuthError", m),
            WarpRejections::SqlxError(m) => ("SqlxError", m),
            WarpRejections::GroupNotExist(m) => ("GroupNotExist", m),
            WarpRejections::UserNotInGroup(m) => ("UserNotInGroup", m),
            WarpRejections::UserNotExist(m) => ("UserNotExist", m),
            WarpRejections::UserNotAuthorized(m) => ("UserNotAuthorized", m),
            WarpRejections::Other(m) => ("Other", m),
        };
        let quoted = debug_text(m.as_str());
        let a = concat(name, "(");
        let b = concat(a.as_str(), quoted.as_str());
        concat(b.as_str(), ")")
    }
}

impl From<WarpRejections> for String {
    fn from(error: WarpRejections) -> (res: String) {
        error.text()
    }
}

impl FromSpecImpl<WarpRejections> for String {
    /// The printed form is known by its characters only, so no single value
    /// is named here; `WarpRejections::text` states them.
    open spec fn obeys_from_spec() -> bool {
        false
    }

    open spec fn from_spec(v: WarpRejections) -> String {
        choose|s: String| s@ == rejection_text(v)
    }
}

/// The reply to a refused request: a status code and a message.
#[derive(Debug)]
pub struct ErrorMessage {
    pub code: u16,
    pub message: String,
}

/// The reply to a refused request: a refusal of the server's own kind is a
/// bad request (400) with the refusal printed; any other is an internal
/// error (500) with what the server knows of it, `unhandled`, after
/// `unhandled error: `.
pub fn rejection_reply(found: Option<&WarpRejections>, unhandled: &str) -> (res: ErrorMessage)
    ensures
        match found {
            Some(e) => res.code == 400 && res.message@ == rejection_text(*e),
            None => res.code == 500 && res.message@ == "unhandled error: "@ + unhandled@,
        },
{
    match found {
        Some(e) => ErrorMessage { code: 400, message: e.text() },
        None => ErrorMessage { code: 500, message: concat("unhandled error: ", unhandled) },
    }
}

} // verus!
