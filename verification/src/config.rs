//! Which backend a library uses.

use vstd::prelude::*;
use vstd::string::*;

use crate::error::prefixed;

verus! {

/// How the local backend stores original photos.
#[derive(Debug, Clone, Copy, PartialEq, Eq, Structural)]
pub enum LocalStorageMode {
    /// Photos are copied into the bundle.
    Managed,
    /// Photos stay where they are; the database holds their absolute paths.
    Referenced,
}

/// The backend of a library and how to connect to it.
#[derive(Clone)]
pub enum LibraryConfig {
    /// Originals on this machine.
    Local { mode: LocalStorageMode },
    /// Originals on an Immich server; the bundle caches metadata and thumbnails.
    Immich {
        server_url: String,
        /// Session token; kept in the keyring, never in the bundle.
        access_token: String,
    },
}

/// How `std` writes a text for debugging: in quotes, with quotes, backslashes and what
/// cannot be printed escaped.
pub uninterp spec fn debug_text(s: Seq<char>) -> Seq<char>;

/// Writes a text as `std::fmt::Debug` does for `str`. The claim is that what is written
/// depends on the text alone.
#[verifier::external_body]
fn quoted(s: &str) -> (r: String)
    ensures
        r@ == debug_text(s@),
{
    format!("{:?}", s)
}

impl LibraryConfig {
    /// The configuration as it may be logged: the access token is left out.
    pub open spec fn shown(self) -> Seq<char> {
        match self {
            LibraryConfig::Local { mode: LocalStorageMode::Managed } => "Local { mode: Managed }"@,
            LibraryConfig::Local {
                mode: LocalStorageMode::Referenced,
            } => "Local { mode: Referenced }"@,
            LibraryConfig::Immich { server_url, .. } => "Immich { server_url: "@ + debug_text(
                server_url@,
            ) + ", access_token: \"[REDACTED]\" }"@,
        }
    }

    /// The configuration as it may be logged.
    pub fn to_string(&self) -> (r: String)
        ensures
            r@ == self.shown(),
    {
        match self {
            LibraryConfig::Local { mode } => match mode {
                LocalStorageMode::Managed => "Local { mode: Managed }".to_owned(),
                LocalStorageMode::Referenced => "Local { mode: Referenced }".to_owned(),
            },
            LibraryConfig::Immich { server_url, .. } => {
                let url = quoted(server_url.as_str());
                let mut s = prefixed("Immich { server_url: ", url.as_str());
                s.append(", access_token: \"[REDACTED]\" }");
                s
            },
        }
    }
}

/// What is logged of a configuration does not depend on the access token.
pub proof fn tokens_are_not_shown(server_url: String, a: String, b: String)
    ensures
        (LibraryConfig::Immich { server_url, access_token: a }).shown() == (LibraryConfig::Immich {
            server_url,
            access_token: b,
        }).shown(),
{
}

} // verus!
