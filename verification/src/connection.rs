//! Connection manager state machine.
//!
//! The manager owns the transport lifecycle decisions; acquiring and
//! releasing the actual serial or network handles is I/O and happens
//! outside the library, which reports the outcome here as a plain value.

use vstd::prelude::*;

use crate::error::CommError;

verus! {

/// Lifecycle state of one connection: at most one transport is open per
/// manager, and opening while already open is rejected rather than
/// silently superseding the prior connection.
pub struct ConnectionManager {
    endpoint: Option<String>,
    opened: bool,
}

impl ConnectionManager {
    /// Whether a transport is currently open.
    pub closed spec fn is_open(&self) -> bool {
        self.opened
    }

    /// The endpoint of the open transport, if any.
    pub closed spec fn endpoint_spec(&self) -> Option<Seq<char>> {
        match self.endpoint {
            Some(s) => Some(s@),
            None => None,
        }
    }

    /// An open connection remembers its endpoint; a closed one has none.
    pub open spec fn wf(&self) -> bool {
        self.is_open() <==> self.endpoint_spec() is Some
    }

    /// Creates a manager with no open transport.
    pub fn new() -> (r: Self)
        ensures
            r.wf(),
            !r.is_open(),
    {
        Self { endpoint: None, opened: false }
    }

    /// Records the outcome of acquiring the transport for `endpoint`.
    /// Opening is refused with `OpenFailed` while a connection is
    /// already open, and when the transport could not be acquired
    /// (`acquired` is false); otherwise the manager becomes open.
    pub fn open(&mut self, endpoint: String, acquired: bool) -> (r: Result<(), CommError>)
        requires
            old(self).wf(),
        ensures
            final(self).wf(),
            old(self).is_open() ==> r == Err::<(), CommError>(CommError::OpenFailed) && final(self).is_open() && final(self).endpoint_spec() == old(self).endpoint_spec(),
            !old(self).is_open() && !acquired ==> r == Err::<(), CommError>(CommError::OpenFailed)
                && !final(self).is_open(),
            !old(self).is_open() && acquired ==> r == Ok::<(), CommError>(()) && final(self).is_open() && final(self).endpoint_spec() == Some(endpoint@),
    {
        if self.opened {
            return Err(CommError::OpenFailed);
        }
        if !acquired {
            return Err(CommError::OpenFailed);
        }
        self.endpoint = Some(endpoint);
        self.opened = true;
        Ok(())
    }

    /// Signals shutdown and forgets the transport. Closing while no
    /// connection is open is refused with `NotOpen`.
    pub fn close(&mut self) -> (r: Result<(), CommError>)
        requires
            old(self).wf(),
        ensures
            final(self).wf(),
            !old(self).is_open() ==> r == Err::<(), CommError>(CommError::NotOpen) && !final(self).is_open(),
            old(self).is_open() ==> r == Ok::<(), CommError>(()) && !final(self).is_open(),
    {
        if !self.opened {
            return Err(CommError::NotOpen);
        }
        self.endpoint = None;
        self.opened = false;
        Ok(())
    }

    /// Reports whether the connection is open: `Ok` exactly when both
    /// transport halves are held, `NotOpen` otherwise.
    pub fn check_open(&self) -> (r: Result<(), CommError>)
        ensures
            self.is_open() ==> r == Ok::<(), CommError>(()),
            !self.is_open() ==> r == Err::<(), CommError>(CommError::NotOpen),
    {
        if self.opened {
            Ok(())
        } else {
            Err(CommError::NotOpen)
        }
    }
}

} // verus!
