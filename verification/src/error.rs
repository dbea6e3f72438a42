//! The errors of library operations and what the user is told of them.

use vstd::prelude::*;
use vstd::string::*;

verus! {

/// Errors that can arise from any library operation.
#[derive(Debug)]
pub enum LibraryError {
    /// A file could not be read or written; holds the system's words.
    Io(String),
    Bundle(String),
    BackendNotSupported,
    /// The manifest names a backend that does not exist.
    InvalidBackend(String),
    /// The database failed; holds its words.
    Db(String),
    Runtime(String),
    Thumbnail(String),
    /// An edit could not be rendered; holds the renderer's words.
    Render(String),
    Immich(String),
    /// The server could not be reached.
    Connectivity(String),
}

/// What the user reads of an error.
#[derive(Debug)]
pub enum UserMessage {
    /// A message to be looked up in the user's language.
    Localized(String),
    /// A message shown as it is.
    Verbatim(String),
}

/// `head` followed by `tail`.
pub fn prefixed(head: &str, tail: &str) -> (r: String)
    ensures
        r@ == head@ + tail@,
{
    let mut s = head.to_owned();
    s.append(tail);
    s
}

impl LibraryError {
    /// The text of the error.
    pub open spec fn text(self) -> Seq<char> {
        match self {
            LibraryError::Io(e) => "I/O error: "@ + e@,
            LibraryError::Bundle(m) => "Bundle error: "@ + m@,
            LibraryError::BackendNotSupported => "Backend not supported"@,
            LibraryError::InvalidBackend(b) => "unknown backend type '"@ + b@
                + "' in library.toml"@,
            LibraryError::Db(e) => "database error: "@ + e@,
            LibraryError::Runtime(m) => "runtime error: "@ + m@,
            LibraryError::Thumbnail(m) => "thumbnail error: "@ + m@,
            LibraryError::Render(e) => "render error: "@ + e@,
            LibraryError::Immich(m) => "immich error: "@ + m@,
            LibraryError::Connectivity(m) => "server unreachable: "@ + m@,
        }
    }

    /// The text of the error, for logs and for developers.
    pub fn to_string(&self) -> (r: String)
        ensures
            r@ == self.text(),
    {
        match self {
            LibraryError::Io(e) => prefixed("I/O error: ", e.as_str()),
            LibraryError::Bundle(m) => prefixed("Bundle error: ", m.as_str()),
            LibraryError::BackendNotSupported => "Backend not supported".to_owned(),
            LibraryError::InvalidBackend(b) => {
                let mut s = prefixed("unknown backend type '", b.as_str());
                s.append("' in library.toml");
                s
            },
            LibraryError::Db(e) => prefixed("database error: ", e.as_str()),
            LibraryError::Runtime(m) => prefixed("runtime error: ", m.as_str()),
            LibraryError::Thumbnail(m) => prefixed("thumbnail error: ", m.as_str()),
            LibraryError::Render(e) => prefixed("render error: ", e.as_str()),
            LibraryError::Immich(m) => prefixed("immich error: ", m.as_str()),
            LibraryError::Connectivity(m) => prefixed("server unreachable: ", m.as_str()),
        }
    }

    /// What the user reads: for database, file and unexpected errors a message
    /// without technical detail, otherwise the error's own text.
    pub fn to_user_facing(&self) -> (r: UserMessage)
        ensures
            words(r) == told_to_user(*self),
            r is Localized <==> hides_detail(*self),
            match *self {
                LibraryError::Db(_) => r matches UserMessage::Localized(m) && m@
                    == "A database error occurred"@,
                LibraryError::Io(_) => r matches UserMessage::Localized(m) && m@
                    == "Could not read or write file"@,
                LibraryError::Runtime(_) => r matches UserMessage::Localized(m) && m@
                    == "An unexpected error occurred"@,
                _ => r matches UserMessage::Verbatim(m) && m@ == self.text(),
            },
    {
        match self {
            LibraryError::Db(_) => UserMessage::Localized("A database error occurred".to_owned()),
            LibraryError::Io(_) => UserMessage::Localized(
                "Could not read or write file".to_owned(),
            ),
            LibraryError::Runtime(_) => UserMessage::Localized(
                "An unexpected error occurred".to_owned(),
            ),
            _ => UserMessage::Verbatim(self.to_string()),
        }
    }
}

/// The words of a message.
pub open spec fn words(m: UserMessage) -> Seq<char> {
    match m {
        UserMessage::Localized(s) => s@,
        UserMessage::Verbatim(s) => s@,
    }
}

/// Whether the user is told of an error in general words alone.
pub open spec fn hides_detail(e: LibraryError) -> bool {
    e is Db || e is Io || e is Runtime
}

/// Two errors that differ only in what went wrong inside the database, the file
/// system or the library itself are told to the user in the same words.
pub proof fn technical_detail_stays_inside(a: LibraryError, b: LibraryError)
    requires
        a is Db && b is Db || a is Io && b is Io || a is Runtime && b is Runtime,
    ensures
        told_to_user(a) == told_to_user(b),
{
}

/// The words of the message that the user reads, before any translation.
pub open spec fn told_to_user(e: LibraryError) -> Seq<char> {
    match e {
        LibraryError::Db(_) => "A database error occurred"@,
        LibraryError::Io(_) => "Could not read or write file"@,
        LibraryError::Runtime(_) => "An unexpected error occurred"@,
        _ => e.text(),
    }
}

} // verus!
