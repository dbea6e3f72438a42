//! The local backend and the choice of a backend.

use vstd::prelude::*;

use crate::bundle::Bundle;
use crate::config::LibraryConfig;
use crate::error::LibraryError;
use crate::event::LibraryEvent;

verus! {

/// The error of an application that no longer listens.
fn channel_closed() -> (r: LibraryError)
    ensures
        r matches LibraryError::Bundle(m) && m@ == "event channel closed"@,
{
    LibraryError::Bundle("event channel closed".to_owned())
}

/// A library whose originals are on this machine.
#[derive(Debug)]
pub struct LocalLibrary {
    bundle: Bundle,
}

impl LocalLibrary {
    /// The bundle of the library.
    pub closed spec fn home(self) -> Bundle {
        self.bundle
    }

    /// What the application is told when the library opens.
    pub fn opening_event() -> (r: LibraryEvent)
        ensures
            r is Ready,
    {
        LibraryEvent::Ready
    }

    /// The open library, if the application got [`LocalLibrary::opening_event`].
    pub fn open(bundle: Bundle, delivered: bool) -> (r: Result<Self, LibraryError>)
        ensures
            delivered ==> (r matches Ok(l) && l.home() == bundle),
            !delivered ==> (r matches Err(LibraryError::Bundle(m)) && m@ == "event channel closed"@),
    {
        if delivered {
            Ok(LocalLibrary { bundle })
        } else {
            Err(channel_closed())
        }
    }

    /// The bundle of the library.
    pub fn bundle(&self) -> (r: &Bundle)
        ensures
            *r == self.home(),
    {
        &self.bundle
    }

    /// What the application is told when the library closes.
    pub fn closing_event(&self) -> (r: LibraryEvent)
        ensures
            r is ShutdownComplete,
    {
        LibraryEvent::ShutdownComplete
    }

    /// Whether the library closed in order: the application got
    /// [`LocalLibrary::closing_event`].
    pub fn close(&self, delivered: bool) -> (r: Result<(), LibraryError>)
        ensures
            delivered ==> r is Ok,
            !delivered ==> (r matches Err(LibraryError::Bundle(m)) && m@ == "event channel closed"@),
    {
        if delivered {
            Ok(())
        } else {
            Err(channel_closed())
        }
    }
}

/// The backends that exist.
#[derive(Debug, Clone, Copy, PartialEq, Eq, Structural)]
pub enum Backend {
    Local,
    Immich,
}

/// Chooses the backend of a library. Only here are backends told apart.
pub struct LibraryFactory;

impl LibraryFactory {
    /// The backend that a configuration asks for.
    pub fn backend(config: &LibraryConfig) -> (r: Backend)
        ensures
            r is Local <==> *config is Local,
            r is Immich <==> *config is Immich,
    {
        match config {
            LibraryConfig::Local { .. } => Backend::Local,
            LibraryConfig::Immich { .. } => Backend::Immich,
        }
    }
}

} // verus!
