//! Decisions of the remote-control server: how a received frame is answered
//! and which transport requests a command asks for.
use vstd::prelude::*;
use crate::protocol::{
    notification_of, window_after_all, Event, Request, WindowState, MAP_STATE_UNMAPPED,
    MAP_STATE_UNVIEWABLE, MAP_STATE_VIEWABLE,
};
use crate::tray_manager::stops_loop;

verus! {

/// Whether a byte sequence is well-formed UTF-8, as std's decoder judges it.
pub uninterp spec fn utf8_valid(bytes: Seq<u8>) -> bool;

/// Relies on `std::str::from_utf8`: it succeeds exactly on well-formed UTF-8.
#[verifier::external_body]
fn is_utf8(bytes: &[u8]) -> (r: bool)
    ensures
        r == utf8_valid(bytes@),
{
    std::str::from_utf8(bytes).is_ok()
}

/// A command of the control channel.
#[derive(Clone, Copy, Debug, PartialEq, Eq, Structural)]
pub enum Command {
    Show,
    Hide,
    Toggle,
    Quit,
    /// Any other text: acknowledged and otherwise ignored.
    Unknown,
}

/// The acknowledgement sent back for a frame.
#[derive(Clone, Copy, Debug, PartialEq, Eq, Structural)]
pub enum Reply {
    /// The frame was text; it is acknowledged before it is acted on.
    Ack,
    /// The frame was not UTF-8; nothing else happens.
    Invalid,
}

impl Reply {
    /// The text sent back on the wire: `ok` or `err`.
    pub fn text(&self) -> (r: &'static str)
        ensures
            *self == Reply::Ack ==> r@ == seq!['o', 'k'],
            *self == Reply::Invalid ==> r@ == seq!['e', 'r', 'r'],
    {
        proof {
            reveal_strlit("ok");
            reveal_strlit("err");
        }
        match self {
            Reply::Ack => "ok",
            Reply::Invalid => "err",
        }
    }
}

/// How a received frame is answered, and the command it carries if any.
#[derive(Clone, Copy, Debug, PartialEq, Eq, Structural)]
pub struct Received {
    pub reply: Reply,
    pub command: Option<Command>,
}

/// What the server does for a command.
#[derive(Clone, Debug, PartialEq, Eq)]
pub enum ControlAction {
    /// Perform these requests on the tray window, in order.
    Perform(Vec<Request>),
    /// Read the tray window's map state, then perform `toggle_requests` for it.
    QueryMapState,
}

/// The ASCII bytes of `show`.
pub open spec fn show_text() -> Seq<u8> {
    seq![115u8, 104, 111, 119]
}

/// The ASCII bytes of `hide`.
pub open spec fn hide_text() -> Seq<u8> {
    seq![104u8, 105, 100, 101]
}

/// The ASCII bytes of `toggle`.
pub open spec fn toggle_text() -> Seq<u8> {
    seq![116u8, 111, 103, 103, 108, 101]
}

/// The ASCII bytes of `quit`.
pub open spec fn quit_text() -> Seq<u8> {
    seq![113u8, 117, 105, 116]
}

/// The command that a text frame names.
pub open spec fn command_of(text: Seq<u8>) -> Command {
    if text == show_text() {
        Command::Show
    } else if text == hide_text() {
        Command::Hide
    } else if text == toggle_text() {
        Command::Toggle
    } else if text == quit_text() {
        Command::Quit
    } else {
        Command::Unknown
    }
}

/// Text frames are acknowledged with `Ack` and carry their command; any other
/// frame is answered `Invalid` and carries none.
pub open spec fn received_spec(valid: bool, frame: Seq<u8>) -> Received {
    if valid {
        Received { reply: Reply::Ack, command: Some(command_of(frame)) }
    } else {
        Received { reply: Reply::Invalid, command: None }
    }
}

/// The requests for a command that needs no query first.
pub open spec fn command_requests(command: Command, tray: u32) -> Seq<Request> {
    match command {
        Command::Show => seq![Request::MapWindow { window: tray }],
        Command::Hide => seq![Request::UnmapWindow { window: tray }],
        Command::Quit => seq![Request::DestroyWindow { window: tray }],
        _ => Seq::<Request>::empty(),
    }
}

/// A toggle: a viewable window is hidden; an unviewable one (on another
/// desktop) is unmapped and mapped again so that it comes into view; an
/// unmapped one is shown; any other state is left alone.
pub open spec fn toggle_spec(tray: u32, map_state: u8) -> Seq<Request> {
    if map_state == MAP_STATE_VIEWABLE {
        seq![Request::UnmapWindow { window: tray }]
    } else if map_state == MAP_STATE_UNVIEWABLE {
        seq![Request::UnmapWindow { window: tray }, Request::MapWindow { window: tray }]
    } else if map_state == MAP_STATE_UNMAPPED {
        seq![Request::MapWindow { window: tray }]
    } else {
        Seq::<Request>::empty()
    }
}

fn bytes_equal(a: &[u8], b: &[u8]) -> (r: bool)
    ensures
        r == (a@ == b@),
{
    if a.len() != b.len() {
        return false;
    }
    let mut i: usize = 0;
    while i < a.len()
        invariant
            a@.len() == b@.len(),
            i <= a@.len(),
            forall|j: int| 0 <= j < i ==> a@[j] == b@[j],
        decreases a@.len() - i,
    {
        if a[i] != b[i] {
            return false;
        }
        i += 1;
    }
    assert(a@ =~= b@);
    true
}

/// The command that a text frame names.
pub fn parse_command(text: &[u8]) -> (r: Command)
    ensures
        r == command_of(text@),
{
    let show: [u8; 4] = [115u8, 104, 111, 119];
    let hide: [u8; 4] = [104u8, 105, 100, 101];
    let toggle: [u8; 6] = [116u8, 111, 103, 103, 108, 101];
    let quit: [u8; 4] = [113u8, 117, 105, 116];
    assert(show@ =~= show_text());
    assert(hide@ =~= hide_text());
    assert(toggle@ =~= toggle_text());
    assert(quit@ =~= quit_text());
    if bytes_equal(text, show.as_slice()) {
        Command::Show
    } else if bytes_equal(text, hide.as_slice()) {
        Command::Hide
    } else if bytes_equal(text, toggle.as_slice()) {
        Command::Toggle
    } else if bytes_equal(text, quit.as_slice()) {
        Command::Quit
    } else {
        Command::Unknown
    }
}

/// How a frame is answered, given whether it is well-formed UTF-8.
pub fn received_from(valid: bool, frame: &[u8]) -> (r: Received)
    ensures
        r == received_spec(valid, frame@),
{
    if valid {
        Received { reply: Reply::Ack, command: Some(parse_command(frame)) }
    } else {
        Received { reply: Reply::Invalid, command: None }
    }
}

/// How a frame received on the control channel is answered.
pub fn receive(frame: &[u8]) -> (r: Received)
    ensures
        r == received_spec(utf8_valid(frame@), frame@),
{
    let valid = is_utf8(frame);
    received_from(valid, frame)
}

/// What the server does for `command` on the tray window `tray`.
pub fn command_action(command: Command, tray: u32) -> (r: ControlAction)
    ensures
        command == Command::Toggle ==> r == ControlAction::QueryMapState,
        command != Command::Toggle ==> r is Perform && r->Perform_0@ == command_requests(
            command,
            tray,
        ),
{
    let mut out: Vec<Request> = Vec::new();
    match command {
        Command::Show => out.push(Request::MapWindow { window: tray }),
        Command::Hide => out.push(Request::UnmapWindow { window: tray }),
        Command::Quit => out.push(Request::DestroyWindow { window: tray }),
        Command::Toggle => return ControlAction::QueryMapState,
        Command::Unknown => {},
    }
    ControlAction::Perform(out)
}

/// The requests of a toggle, given the tray window's map state.
pub fn toggle_requests(tray: u32, map_state: u8) -> (r: Vec<Request>)
    ensures
        r@ == toggle_spec(tray, map_state),
{
    let mut out: Vec<Request> = Vec::new();
    if map_state == MAP_STATE_VIEWABLE {
        out.push(Request::UnmapWindow { window: tray });
    } else if map_state == MAP_STATE_UNVIEWABLE {
        out.push(Request::UnmapWindow { window: tray });
        out.push(Request::MapWindow { window: tray });
    } else if map_state == MAP_STATE_UNMAPPED {
        out.push(Request::MapWindow { window: tray });
    }
    out
}

/// The requests a text frame leads to once acknowledged, with `map_state`
/// standing for the map state a toggle reads.
pub open spec fn frame_requests(frame: Seq<u8>, tray: u32, map_state: u8) -> Seq<Request> {
    if command_of(frame) == Command::Toggle {
        toggle_spec(tray, map_state)
    } else {
        command_requests(command_of(frame), tray)
    }
}

/// `show` and then `hide`, sent as text, are each acknowledged; the first
/// asks for exactly one map of the tray window and the second for exactly one
/// unmap.
pub proof fn lemma_show_then_hide(tray: u32, map_state: u8)
    ensures
        received_spec(true, show_text()).reply == Reply::Ack,
        received_spec(true, hide_text()).reply == Reply::Ack,
        frame_requests(show_text(), tray, map_state) == seq![Request::MapWindow { window: tray }],
        frame_requests(hide_text(), tray, map_state) == seq![Request::UnmapWindow { window: tray }],
{
    assert(show_text() != hide_text()) by {
        assert(show_text()[0] != hide_text()[0]);
    }
}

/// A frame that is not UTF-8 is answered `Invalid` and carries no command, so
/// nothing is asked of the transport.
pub proof fn lemma_invalid_frame_is_inert(frame: Seq<u8>)
    ensures
        received_spec(false, frame).reply == Reply::Invalid,
        received_spec(false, frame).command is None,
{
}

/// Driving a live tray window remotely: after `hide` it is unmapped, after
/// `show` mapped, and after `quit` destroyed; the destroy notification the
/// transport then delivers ends the event loop.
pub proof fn lemma_remote_lifecycle(tray: u32, start: WindowState, map_state: u8)
    requires
        start != WindowState::Destroyed,
    ensures
        window_after_all(start, tray, frame_requests(hide_text(), tray, map_state))
            == WindowState::Unmapped,
        window_after_all(
            WindowState::Unmapped,
            tray,
            frame_requests(show_text(), tray, map_state),
        ) == WindowState::Mapped,
        window_after_all(WindowState::Mapped, tray, frame_requests(quit_text(), tray, map_state))
            == WindowState::Destroyed,
        frame_requests(quit_text(), tray, map_state).len() == 1,
        notification_of(frame_requests(quit_text(), tray, map_state)[0]) matches Some(ev)
            && stops_loop(tray, ev),
{
    assert(hide_text() != show_text()) by {
        assert(hide_text()[0] != show_text()[0]);
    }
    assert(quit_text() != show_text()) by {
        assert(quit_text()[0] != show_text()[0]);
    }
    assert(quit_text() != hide_text()) by {
        assert(quit_text()[0] != hide_text()[0]);
    }
    assert(quit_text() != toggle_text()) by {
        assert(quit_text().len() != toggle_text().len());
    }
    assert(hide_text() != toggle_text()) by {
        assert(hide_text().len() != toggle_text().len());
    }
    assert(show_text() != toggle_text()) by {
        assert(show_text().len() != toggle_text().len());
    }
    let hide = frame_requests(hide_text(), tray, map_state);
    assert(window_after_all(start, tray, hide) == window_after_all(
        WindowState::Unmapped,
        tray,
        hide.drop_first(),
    ));
    assert(hide.drop_first().len() == 0);
    let show = frame_requests(show_text(), tray, map_state);
    assert(window_after_all(WindowState::Unmapped, tray, show) == window_after_all(
        WindowState::Mapped,
        tray,
        show.drop_first(),
    ));
    assert(show.drop_first().len() == 0);
    let quit = frame_requests(quit_text(), tray, map_state);
    assert(window_after_all(WindowState::Mapped, tray, quit) == window_after_all(
        WindowState::Destroyed,
        tray,
        quit.drop_first(),
    ));
    assert(quit.drop_first().len() == 0);
}

} // verus!
