//! The error taxonomy of the tray manager.
use vstd::prelude::*;

verus! {

#[derive(Clone, Debug, PartialEq, Eq)]
pub enum TrayError {
    /// A named condition raised by the manager itself (a missing screen).
    Generic { name: String },
    /// The transport rejected a request; `code` is the protocol's error code,
    /// or 0 when no reply came back at all.
    GenericXcb { code: u8 },
    /// The transport connection could not be established.
    Connection { reason: String },
    /// The control channel failed; `errno` is the channel's error number.
    ZMQ { errno: i32 },
    /// The tray window is gone: the event loop ends.
    Destroyed,
    /// A dock request named a window that is already docked.
    AlreadyDocked { handle: u32 },
    /// A dock request came while the registry had no free slot.
    RegistryFull { handle: u32 },
    /// The window's embedding-info property was missing or too short.
    InvalidEmbedInfo { handle: u32 },
}

impl TrayError {
    pub fn new(name: String) -> (r: Self)
        ensures
            r == (TrayError::Generic { name }),
    {
        TrayError::Generic { name }
    }
}

} // verus!
