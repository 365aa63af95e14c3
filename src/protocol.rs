//! Wire-level vocabulary shared by the event loop and the control server:
//! the transport requests the core asks for, and the events it is handed.
use vstd::prelude::*;

verus! {

/// Base code of a destroy notification.
pub const DESTROY_NOTIFY: u8 = 17;
/// Base code of a client message.
pub const CLIENT_MESSAGE: u8 = 33;
/// Base code of a key press.
pub const KEY_PRESS: u8 = 2;
/// Flag set on the response type of events that another client sent.
pub const SENT_EVENT_FLAG: u8 = 0x80;

/// Map state reported for a window that is not mapped.
pub const MAP_STATE_UNMAPPED: u8 = 0;
/// Map state of a window that is mapped but not visible (another desktop).
pub const MAP_STATE_UNVIEWABLE: u8 = 1;
/// Map state of a window that is mapped and visible.
pub const MAP_STATE_VIEWABLE: u8 = 2;

/// The "current time" marker of the protocol.
pub const CURRENT_TIME: u32 = 0;

/// Opcode of a dock request in the tray protocol.
pub const SYSTEM_TRAY_REQUEST_DOCK: u32 = 0;

/// Keycode of the Escape key.
pub const KEYCODE_ESCAPE: u8 = 9;
/// Keycode of the `q` key.
pub const KEYCODE_Q: u8 = 24;

/// One call into the windowing transport, as decided by the core.
#[derive(Clone, Copy, Debug, PartialEq, Eq)]
pub enum Request {
    MapWindow { window: u32 },
    UnmapWindow { window: u32 },
    DestroyWindow { window: u32 },
    /// Move a window to `(x, y)` inside its parent.
    ConfigurePosition { window: u32, x: u32, y: u32 },
    /// Resize a window to `width` by `height`.
    ConfigureSize { window: u32, width: u32, height: u32 },
    /// Ask for property-change and structure-change notifications on a window.
    SubscribeEvents { window: u32 },
    /// Reparent `window` into `parent` at `(x, y)`.
    Reparent { window: u32, parent: u32, x: u32, y: u32 },
    /// Insert a window into the save-set.
    SaveSetInsert { window: u32 },
    /// Send a 32-bit-format client message to `window`, with no event mask.
    SendMessage { window: u32, message_type: u32, data: [u32; 5] },
    Flush,
}

/// The known kinds of event, decoded once at the loop boundary.
#[derive(Clone, Copy, Debug, PartialEq, Eq)]
pub enum EventKind {
    DestroyNotify,
    ClientMessage,
    KeyPress,
    Other,
}

/// An event handed to the event loop, with the fields the core reads.
#[derive(Clone, Copy, Debug, PartialEq, Eq)]
pub enum Event {
    DestroyNotify { window: u32 },
    ClientMessage { format: u8, message_type: u32, data: [u32; 5] },
    KeyPress { detail: u8 },
    Other,
}

/// The base code of a response type: the sent-event flag cleared.
pub open spec fn base_code(response_type: u8) -> u8 {
    (response_type % 128) as u8
}

pub open spec fn kind_of_code(code: u8) -> EventKind {
    if code == DESTROY_NOTIFY {
        EventKind::DestroyNotify
    } else if code == CLIENT_MESSAGE {
        EventKind::ClientMessage
    } else if code == KEY_PRESS {
        EventKind::KeyPress
    } else {
        EventKind::Other
    }
}

/// Classifies an event by its response type, ignoring the sent-event flag.
pub fn event_kind(response_type: u8) -> (r: EventKind)
    ensures
        r == kind_of_code(base_code(response_type)),
{
    let code: u8 = response_type & !SENT_EVENT_FLAG;
    assert(code == response_type % 128) by (bit_vector)
        requires
            code == response_type & !0x80u8,
    ;
    if code == DESTROY_NOTIFY {
        EventKind::DestroyNotify
    } else if code == CLIENT_MESSAGE {
        EventKind::ClientMessage
    } else if code == KEY_PRESS {
        EventKind::KeyPress
    } else {
        EventKind::Other
    }
}

/// What the transport holds of the tray window: mapped, unmapped, or gone.
#[derive(Clone, Copy, Debug, PartialEq, Eq, Structural)]
pub enum WindowState {
    Mapped,
    Unmapped,
    Destroyed,
}

/// The tray window `tray` in `state`, once the transport has performed `req`.
/// A destroyed window stays destroyed; requests on other windows leave it.
pub open spec fn window_after(state: WindowState, tray: u32, req: Request) -> WindowState {
    if state == WindowState::Destroyed {
        WindowState::Destroyed
    } else {
        match req {
            Request::MapWindow { window } => if window == tray {
                WindowState::Mapped
            } else {
                state
            },
            Request::UnmapWindow { window } => if window == tray {
                WindowState::Unmapped
            } else {
                state
            },
            Request::DestroyWindow { window } => if window == tray {
                WindowState::Destroyed
            } else {
                state
            },
            _ => state,
        }
    }
}

/// The tray window after the transport has performed `reqs` in order.
pub open spec fn window_after_all(state: WindowState, tray: u32, reqs: Seq<Request>) -> WindowState
    decreases reqs.len(),
{
    if reqs.len() == 0 {
        state
    } else {
        window_after_all(window_after(state, tray, reqs[0]), tray, reqs.drop_first())
    }
}

/// The event the transport delivers to the event loop once it performed `req`.
pub open spec fn notification_of(req: Request) -> Option<Event> {
    match req {
        Request::DestroyWindow { window } => Some(Event::DestroyNotify { window }),
        _ => None,
    }
}

} // verus!
