//! Session tokens in the keyring of the desktop.

use vstd::prelude::*;
use vstd::string::*;

use crate::error::{prefixed, LibraryError};

verus! {

/// The attribute under which a token is kept: the address of its server, so that every
/// server has its own.
pub const SERVER_URL_ATTRIBUTE: &'static str = "server_url";

/// How a token is shown in the keyring.
pub fn token_label(server_url: &str) -> (r: String)
    ensures
        r@ == "Moments — Immich session for "@ + server_url@,
{
    prefixed("Moments — Immich session for ", server_url)
}

/// What is done with a token.
#[derive(Debug, Clone, Copy, PartialEq, Eq, Structural)]
pub enum KeyringAction {
    Store,
    Lookup,
    Delete,
}

/// The error of a keyring that refuses.
pub fn keyring_error(action: KeyringAction, cause: &str) -> (r: LibraryError)
    ensures
        r matches LibraryError::Immich(m) && m@ == (match action {
            KeyringAction::Store => "failed to store token in keyring: "@,
            KeyringAction::Lookup => "failed to lookup token in keyring: "@,
            KeyringAction::Delete => "failed to delete token from keyring: "@,
        }) + cause@,
{
    let head = match action {
        KeyringAction::Store => "failed to store token in keyring: ",
        KeyringAction::Lookup => "failed to lookup token in keyring: ",
        KeyringAction::Delete => "failed to delete token from keyring: ",
    };
    LibraryError::Immich(prefixed(head, cause))
}

} // verus!
