//! The process-wide passthrough driver slot: at most one driver is loaded at a
//! time, and a second load is refused rather than replacing the first.
use vstd::prelude::*;
use crate::session::SessionError;

verus! {

/// A passthrough device as driver enumeration reports it.
#[derive(Clone, Debug)]
pub struct DeviceDescriptor {
    pub id: u32,
    pub name: String,
    pub driver_path: String,
}

/// Which driver library, if any, is loaded.
pub struct DriverSlot {
    loaded: Option<String>,
}

impl DriverSlot {
    /// The path of the loaded driver library, if one is loaded.
    pub closed spec fn spec_loaded(&self) -> Option<Seq<char>> {
        match self.loaded {
            Some(p) => Some(p@),
            None => None,
        }
    }

    /// An empty slot.
    pub fn new() -> (r: DriverSlot)
        ensures
            r.spec_loaded() is None,
    {
        DriverSlot { loaded: None }
    }

    pub fn is_loaded(&self) -> (r: bool)
        ensures
            r == self.spec_loaded() is Some,
    {
        self.loaded.is_some()
    }

    /// Claims the slot for the driver at `path`; `DriverInUseError`, with the
    /// slot unchanged, when a driver is already loaded.
    pub fn claim(&mut self, path: &str) -> (r: Result<(), SessionError>)
        ensures
            old(self).spec_loaded() is Some ==> r == Err::<(), SessionError>(
                SessionError::DriverInUseError,
            ) && final(self).spec_loaded() == old(self).spec_loaded(),
            old(self).spec_loaded() is None ==> r is Ok && final(self).spec_loaded() == Some(path@),
    {
        if self.loaded.is_some() {
            return Err(SessionError::DriverInUseError);
        }
        self.loaded = Some(path.to_owned());
        Ok(())
    }

    /// Finishes connecting to a device once the slot is claimed: `loaded` says
    /// whether the driver library and its entry points loaded, `opened` is what
    /// the driver's open returned (a device identifier, or its status code). A
    /// library that did not load is a `DriverLoadError` and frees the slot; a
    /// refused open is a `DeviceOpenError` and keeps the driver loaded.
    pub fn finish_connect(&mut self, loaded: bool, opened: Result<u32, u32>) -> (r: Result<
        u32,
        SessionError,
    >)
        ensures
            !loaded ==> r == Err::<u32, SessionError>(SessionError::DriverLoadError)
                && final(self).spec_loaded() is None,
            loaded ==> final(self).spec_loaded() == old(self).spec_loaded(),
            loaded && opened is Ok ==> r == Ok::<u32, SessionError>(opened.unwrap()),
            loaded && opened is Err ==> r == Err::<u32, SessionError>(SessionError::DeviceOpenError),
    {
        if !loaded {
            self.loaded = None;
            return Err(SessionError::DriverLoadError);
        }
        match opened {
            Ok(id) => Ok(id),
            Err(_) => Err(SessionError::DeviceOpenError),
        }
    }

    /// Refuses driver operations, such as reading the battery voltage, while no
    /// driver is loaded: `DriverLoadError` exactly when the slot is empty.
    pub fn require_driver(&self) -> (r: Result<(), SessionError>)
        ensures
            self.spec_loaded() is Some ==> r is Ok,
            self.spec_loaded() is None ==> r == Err::<(), SessionError>(SessionError::DriverLoadError),
    {
        if self.loaded.is_some() {
            Ok(())
        } else {
            Err(SessionError::DriverLoadError)
        }
    }

    /// Gives the slot back once the driver is closed or failed to load.
    pub fn release(&mut self)
        ensures
            final(self).spec_loaded() is None,
    {
        self.loaded = None;
    }
}

} // verus!
