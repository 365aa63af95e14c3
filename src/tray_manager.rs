//! The tray manager: the docked-client registry, layout, and the decisions of
//! the protocol event loop. The transport calls themselves are returned as
//! `Request`s for the caller to perform.
use vstd::prelude::*;
use crate::error::TrayError;
use crate::protocol::{
    Event, Request, CURRENT_TIME, KEYCODE_ESCAPE, KEYCODE_Q, SYSTEM_TRAY_REQUEST_DOCK,
};
use crate::tray_client::TrayClient;

verus! {

/// Side of the square each docked icon is resized to.
pub const ICON_SIZE: u32 = 32;
/// Vertical offset of every docked icon.
pub const CLIENT_Y: u32 = 10;
/// Horizontal offset of the first docked icon.
pub const TRAY_LEFT_PAD: u32 = 10;
/// Most clients the registry holds: every slot offset then fits in a `u32`.
pub const MAX_CLIENTS: usize = 134_217_727;

/// Horizontal offset of slot `i`.
pub open spec fn slot_x(i: int) -> int {
    TRAY_LEFT_PAD + i * ICON_SIZE
}

/// The request that places `window` in slot `i`.
pub open spec fn placement(window: u32, i: int) -> Request {
    Request::ConfigurePosition { window, x: slot_x(i) as u32, y: CLIENT_Y }
}

/// One placement per client, in registry order.
pub open spec fn reflow_spec(handles: Seq<u32>) -> Seq<Request> {
    Seq::new(handles.len(), |i: int| placement(handles[i], i))
}

proof fn lemma_remove_keeps_unique(s: Seq<u32>, k: int)
    requires
        s.no_duplicates(),
        0 <= k < s.len(),
    ensures
        s.remove(k).no_duplicates(),
        !s.remove(k).contains(s[k]),
{
    let r = s.remove(k);
    assert forall|i: int, j: int| 0 <= i < r.len() && 0 <= j < r.len() && i != j implies r[i]
        != r[j] by {
        let oi = if i < k { i } else { i + 1 };
        let oj = if j < k { j } else { j + 1 };
        assert(r[i] == s[oi]);
        assert(r[j] == s[oj]);
    }
    assert forall|i: int| 0 <= i < r.len() implies r[i] != s[k] by {
        let oi = if i < k { i } else { i + 1 };
        assert(r[i] == s[oi]);
    }
}

proof fn lemma_push_keeps_unique(s: Seq<u32>, h: u32)
    requires
        s.no_duplicates(),
        !s.contains(h),
    ensures
        s.push(h).no_duplicates(),
{
    let r = s.push(h);
    assert forall|i: int, j: int| 0 <= i < r.len() && 0 <= j < r.len() && i != j implies r[i]
        != r[j] by {
        if i == s.len() {
            assert(s[j] == r[j]);
        } else if j == s.len() {
            assert(s[i] == r[i]);
        }
    }
}

/// Atoms the event loop compares against or sends, interned at startup.
#[derive(Clone, Copy, Debug, PartialEq, Eq, Structural)]
pub struct Atoms {
    pub wm_delete_window: u32,
    pub tray_opcode: u32,
    pub xembed: u32,
    pub xembed_embedded_notify: u32,
}

/// What a client message asks of the tray.
#[derive(Clone, Copy, Debug, PartialEq, Eq, Structural)]
pub enum ClientMessageAction {
    /// A window-close request: hide the tray window.
    CloseTray,
    /// A dock request for the window `handle`.
    Dock { handle: u32 },
    Ignore,
}

/// Close requests carry the delete-protocol atom in their first word; dock
/// requests carry the tray opcode as type, the dock opcode in the second word
/// and the client's handle in the third. Anything else is ignored.
pub open spec fn client_message_action(format: u8, message_type: u32, data: Seq<u32>, atoms: Atoms) -> ClientMessageAction {
    if format != 32 || data.len() != 5 {
        ClientMessageAction::Ignore
    } else if data[0] == atoms.wm_delete_window {
        ClientMessageAction::CloseTray
    } else if message_type == atoms.tray_opcode && data[1] == SYSTEM_TRAY_REQUEST_DOCK {
        ClientMessageAction::Dock { handle: data[2] }
    } else {
        ClientMessageAction::Ignore
    }
}

/// Why a dock request for `handle` is refused before any transport call.
pub open spec fn dock_refusal(handles: Seq<u32>, handle: u32) -> Option<TrayError> {
    if handles.contains(handle) {
        Some(TrayError::AlreadyDocked { handle })
    } else if handles.len() >= MAX_CLIENTS {
        Some(TrayError::RegistryFull { handle })
    } else {
        None
    }
}

/// The embedding steps for `handle`, once its embedding info gave `version`:
/// reparent it into the tray at the origin, resize it to the icon square, send
/// it the embedded notification, add it to the save-set and map it.
pub open spec fn embed_requests(tray: u32, handle: u32, version: u32, atoms: Atoms) -> Seq<Request> {
    seq![
        Request::Reparent { window: handle, parent: tray, x: 0, y: 0 },
        Request::ConfigureSize { window: handle, width: ICON_SIZE, height: ICON_SIZE },
        Request::SendMessage {
            window: handle,
            message_type: atoms.xembed,
            data: [CURRENT_TIME, atoms.xembed_embedded_notify, tray, version, 0],
        },
        Request::SaveSetInsert { window: handle },
        Request::MapWindow { window: handle },
    ]
}

/// Keys that hide the tray: `q` and Escape.
pub open spec fn is_dismiss_key(detail: u8) -> bool {
    detail == KEYCODE_Q || detail == KEYCODE_ESCAPE
}

/// The requests for a window-close request: hide the tray window and flush.
pub open spec fn close_requests(tray: u32) -> Seq<Request> {
    seq![Request::UnmapWindow { window: tray }, Request::Flush]
}

/// The requests for a key press on the tray window.
pub open spec fn key_press_requests(tray: u32, detail: u8) -> Seq<Request> {
    if is_dismiss_key(detail) {
        seq![Request::UnmapWindow { window: tray }]
    } else {
        Seq::<Request>::empty()
    }
}

/// The events that end the loop: a destroy notification for the tray window.
pub open spec fn stops_loop(tray: u32, event: Event) -> bool {
    event == (Event::DestroyNotify { window: tray })
}

/// What the event loop does next.
#[derive(Clone, Debug, PartialEq, Eq)]
pub enum Reaction {
    /// Perform these transport requests, in order, and wait for the next event.
    Perform(Vec<Request>),
    /// Run the dock handshake for `handle`: `begin_dock`, then `dock`.
    Dock { handle: u32 },
    /// The tray window is gone: leave the loop.
    Stop,
}

/// A change to the registry: an accepted dock request (embedding info
/// present), or a destroy notification for a window other than the tray.
#[derive(Clone, Copy, Debug, PartialEq, Eq, Structural)]
pub enum RegistryOp {
    Dock(u32),
    Destroy(u32),
}

/// The registry after `op`, as `dock` and `handle_destroy_notify` leave it.
pub open spec fn registry_step(s: Seq<u32>, op: RegistryOp) -> Seq<u32> {
    match op {
        RegistryOp::Dock(h) => if dock_refusal(s, h) is None {
            s.push(h)
        } else {
            s
        },
        RegistryOp::Destroy(w) => if s.contains(w) {
            s.remove(s.index_of(w))
        } else {
            s
        },
    }
}

/// The registry after `ops`, starting empty.
pub open spec fn replay(ops: Seq<RegistryOp>) -> Seq<u32>
    decreases ops.len(),
{
    if ops.len() == 0 {
        Seq::empty()
    } else {
        registry_step(replay(ops.drop_last()), ops.last())
    }
}

/// How many of `ops` are dock requests.
pub open spec fn dock_count(ops: Seq<RegistryOp>) -> nat
    decreases ops.len(),
{
    if ops.len() == 0 {
        0
    } else {
        dock_count(ops.drop_last()) + if ops.last() is Dock {
            1nat
        } else {
            0nat
        }
    }
}

/// How many of `ops` removed a docked client.
pub open spec fn removal_count(ops: Seq<RegistryOp>) -> nat
    decreases ops.len(),
{
    if ops.len() == 0 {
        0
    } else {
        removal_count(ops.drop_last()) + match ops.last() {
            RegistryOp::Destroy(w) => if replay(ops.drop_last()).contains(w) {
                1nat
            } else {
                0nat
            },
            RegistryOp::Dock(_) => 0nat,
        }
    }
}

/// No two dock requests of `ops` name the same handle.
pub open spec fn distinct_docks(ops: Seq<RegistryOp>) -> bool {
    forall|i: int, j: int|
        0 <= i < j < ops.len() && ops[i] is Dock && ops[j] is Dock ==> ops[i]->Dock_0
            != ops[j]->Dock_0
}

proof fn lemma_replay_members(ops: Seq<RegistryOp>, x: u32)
    requires
        replay(ops).contains(x),
    ensures
        exists|i: int| 0 <= i < ops.len() && ops[i] == RegistryOp::Dock(x),
    decreases ops.len(),
{
    let p = ops.drop_last();
    let s = replay(p);
    let last = ops.len() - 1;
    match ops.last() {
        RegistryOp::Dock(h) => {
            if dock_refusal(s, h) is None && x == h {
                assert(ops[last] == RegistryOp::Dock(x));
            } else {
                if dock_refusal(s, h) is None {
                    let k = choose|k: int| 0 <= k < s.push(h).len() && s.push(h)[k] == x;
                    assert(s[k] == x);
                }
                lemma_replay_members(p, x);
                let i = choose|i: int| 0 <= i < p.len() && p[i] == RegistryOp::Dock(x);
                assert(ops[i] == p[i]);
            }
        },
        RegistryOp::Destroy(w) => {
            if s.contains(w) {
                let r = s.remove(s.index_of(w));
                let k = choose|k: int| 0 <= k < r.len() && r[k] == x;
                if k < s.index_of(w) {
                    assert(s[k] == x);
                } else {
                    assert(s[k + 1] == x);
                }
            }
            lemma_replay_members(p, x);
            let i = choose|i: int| 0 <= i < p.len() && p[i] == RegistryOp::Dock(x);
            assert(ops[i] == p[i]);
        },
    }
}

/// For any run of dock requests with distinct handles, interleaved with
/// destroy notifications, the registry never holds a handle twice and its size
/// is the number of dock requests less the number of clients removed.
pub proof fn lemma_registry_count(ops: Seq<RegistryOp>)
    requires
        distinct_docks(ops),
        dock_count(ops) <= MAX_CLIENTS,
    ensures
        replay(ops).no_duplicates(),
        removal_count(ops) <= dock_count(ops),
        replay(ops).len() == dock_count(ops) - removal_count(ops),
    decreases ops.len(),
{
    if ops.len() > 0 {
        let p = ops.drop_last();
        let s = replay(p);
        let last = ops.len() - 1;
        assert forall|i: int, j: int|
            0 <= i < j < p.len() && p[i] is Dock && p[j] is Dock implies p[i]->Dock_0
            != p[j]->Dock_0 by {
            assert(p[i] == ops[i] && p[j] == ops[j]);
        }
        lemma_registry_count(p);
        match ops.last() {
            RegistryOp::Dock(h) => {
                if s.contains(h) {
                    lemma_replay_members(p, h);
                    let i = choose|i: int| 0 <= i < p.len() && p[i] == RegistryOp::Dock(h);
                    assert(ops[i] == p[i]);
                    assert(ops[last] == RegistryOp::Dock(h));
                }
                lemma_push_keeps_unique(s, h);
            },
            RegistryOp::Destroy(w) => {
                if s.contains(w) {
                    lemma_remove_keeps_unique(s, s.index_of(w));
                }
            },
        }
    }
}

/// Docking one handle twice into a registry with a free slot: the second request is refused as a duplicate and
/// leaves the registry as the first left it, so no handle is ever listed twice.
pub proof fn lemma_dock_twice(s: Seq<u32>, h: u32)
    requires
        s.no_duplicates(),
        s.len() < MAX_CLIENTS,
    ensures
        dock_refusal(registry_step(s, RegistryOp::Dock(h)), h) == Some(
            TrayError::AlreadyDocked { handle: h },
        ),
        registry_step(registry_step(s, RegistryOp::Dock(h)), RegistryOp::Dock(h))
            == registry_step(s, RegistryOp::Dock(h)),
        registry_step(s, RegistryOp::Dock(h)).no_duplicates(),
{
    let once = registry_step(s, RegistryOp::Dock(h));
    if dock_refusal(s, h) is None {
        lemma_push_keeps_unique(s, h);
        assert(once[s.len() as int] == h);
    }
}

/// The state of the event loop.
#[derive(Clone, Copy, Debug, PartialEq, Eq, Structural)]
pub enum LoopState {
    Running,
    Destroyed,
}

pub struct TrayManager {
    pub tray_window_handle: u32,
    pub clients: Vec<TrayClient>,
    pub state: LoopState,
}

impl TrayManager {
    /// The registry, in dock order.
    pub open spec fn clients_view(self) -> Seq<TrayClient> {
        self.clients@
    }

    pub open spec fn loop_state(self) -> LoopState {
        self.state
    }

    /// The handles of the docked clients, in dock order.
    pub open spec fn handles(self) -> Seq<u32> {
        self.clients_view().map_values(|c: TrayClient| c.handle)
    }

    /// No handle is docked twice, and every slot fits in a `u32`.
    pub open spec fn wf(self) -> bool {
        &&& self.handles().no_duplicates()
        &&& self.handles().len() <= MAX_CLIENTS
    }

    /// A running manager for the tray window `tray_window_handle`, with no
    /// client docked.
    pub fn new(tray_window_handle: u32) -> (r: Self)
        ensures
            r.wf(),
            r.tray_window_handle == tray_window_handle,
            r.clients_view().len() == 0,
            r.loop_state() == LoopState::Running,
    {
        TrayManager { tray_window_handle, clients: Vec::new(), state: LoopState::Running }
    }

    pub fn is_destroyed(&self) -> (r: bool)
        ensures
            r == (self.loop_state() == LoopState::Destroyed),
    {
        self.state == LoopState::Destroyed
    }

    /// The handles of the docked clients, in dock order.
    pub fn client_handles(&self) -> (r: Vec<u32>)
        ensures
            r@ == self.handles(),
    {
        let mut out: Vec<u32> = Vec::new();
        let mut i: usize = 0;
        while i < self.clients.len()
            invariant
                i <= self.clients@.len(),
                out@ == self.handles().take(i as int),
            decreases self.clients@.len() - i,
        {
            out.push(self.clients[i].handle);
            i += 1;
            assert(out@ =~= self.handles().take(i as int));
        }
        assert(self.handles().take(i as int) =~= self.handles());
        out
    }

    /// Where `window` stands in the registry, if it is docked.
    fn position_of(&self, window: u32) -> (r: Option<usize>)
        ensures
            match r {
                Some(i) => i < self.handles().len() && self.handles()[i as int] == window,
                None => !self.handles().contains(window),
            },
    {
        let mut i: usize = 0;
        while i < self.clients.len()
            invariant
                i <= self.clients@.len(),
                forall|j: int| 0 <= j < i ==> self.handles()[j] != window,
            decreases self.clients@.len() - i,
        {
            if self.clients[i].handle == window {
                return Some(i);
            }
            i += 1;
        }
        None
    }

    /// One placement request per docked client: slot `i` goes to
    /// `(TRAY_LEFT_PAD + i * ICON_SIZE, CLIENT_Y)`, in registry order.
    pub fn reflow_clients(&self) -> (r: Vec<Request>)
        requires
            self.wf(),
        ensures
            r@ == reflow_spec(self.handles()),
    {
        let mut out: Vec<Request> = Vec::new();
        let mut i: usize = 0;
        while i < self.clients.len()
            invariant
                self.wf(),
                i <= self.clients@.len(),
                out@.len() == i,
                forall|j: int| 0 <= j < i ==> out@[j] == placement(self.handles()[j], j),
            decreases self.clients@.len() - i,
        {
            let x: u32 = TRAY_LEFT_PAD + (i as u32) * ICON_SIZE;
            out.push(self.clients[i].reconfigure_placement(x, CLIENT_Y));
            i += 1;
        }
        assert(out@ =~= reflow_spec(self.handles()));
        out
    }
    /// A destroy notification for `window`. The tray window ends the loop; a
    /// docked client leaves the registry and the rest are placed again; any
    /// other window is ignored.
    pub fn handle_destroy_notify(&mut self, window: u32) -> (r: Result<Vec<Request>, TrayError>)
        requires
            old(self).wf(),
        ensures
            final(self).wf(),
            final(self).tray_window_handle == old(self).tray_window_handle,
            window == old(self).tray_window_handle ==> {
                &&& r == Err::<Vec<Request>, TrayError>(TrayError::Destroyed)
                &&& final(self).state == LoopState::Destroyed
                &&& final(self).clients@ == old(self).clients@
            },
            window != old(self).tray_window_handle && old(self).handles().contains(window) ==> {
                &&& r is Ok
                &&& final(self).clients@ == old(self).clients@.remove(
                    old(self).handles().index_of(window),
                )
                &&& final(self).handles() == old(self).handles().remove(
                    old(self).handles().index_of(window),
                )
                &&& r->Ok_0@ == reflow_spec(final(self).handles())
                &&& final(self).state == old(self).state
            },
            window != old(self).tray_window_handle && !old(self).handles().contains(window) ==> {
                &&& r is Ok
                &&& r->Ok_0@.len() == 0
                &&& final(self).clients@ == old(self).clients@
                &&& final(self).state == old(self).state
            },
    {
        if window == self.tray_window_handle {
            self.state = LoopState::Destroyed;
            return Err(TrayError::Destroyed);
        }
        match self.position_of(window) {
            None => Ok(Vec::new()),
            Some(idx) => {
                let ghost old_h = self.handles();
                let ghost old_c = self.clients@;
                proof {
                    assert(old_h.contains(window));
                    let k = old_h.index_of(window);
                    assert(old_h[k] == window);
                    assert(k == idx as int);
                    lemma_remove_keeps_unique(old_h, idx as int);
                }
                self.clients.remove(idx);
                assert(self.handles() =~= old_h.remove(idx as int));
                Ok(self.reflow_clients())
            },
        }
    }

    /// Whether a dock request for `handle` may go on; if so, the request that
    /// subscribes to the window's property and structure changes.
    pub fn begin_dock(&self, handle: u32) -> (r: Result<Vec<Request>, TrayError>)
        requires
            self.wf(),
        ensures
            match dock_refusal(self.handles(), handle) {
                Some(e) => r == Err::<Vec<Request>, TrayError>(e),
                None => r is Ok && r->Ok_0@ == seq![Request::SubscribeEvents { window: handle }],
            },
    {
        match self.position_of(handle) {
            Some(_) => Err(TrayError::AlreadyDocked { handle }),
            None => {
                if self.clients.len() >= MAX_CLIENTS {
                    Err(TrayError::RegistryFull { handle })
                } else {
                    let mut out: Vec<Request> = Vec::new();
                    out.push(Request::SubscribeEvents { window: handle });
                    Ok(out)
                }
            },
        }
    }

    /// Completes the dock handshake for `handle`, whose display name resolved
    /// to `name` and whose embedding-info property read back as `embed_info`
    /// (version, flags). The client is appended to the registry and the
    /// requests embed it, place every client and flush.
    pub fn dock(&mut self, handle: u32, name: Option<String>, embed_info: &Vec<u32>, atoms: &Atoms) -> (r: Result<Vec<Request>, TrayError>)
        requires
            old(self).wf(),
        ensures
            final(self).wf(),
            final(self).tray_window_handle == old(self).tray_window_handle,
            final(self).state == old(self).state,
            dock_refusal(old(self).handles(), handle) is Some ==> {
                &&& r == Err::<Vec<Request>, TrayError>(dock_refusal(old(self).handles(), handle)->Some_0)
                &&& final(self).clients@ == old(self).clients@
            },
            dock_refusal(old(self).handles(), handle) is None && embed_info@.len() < 2 ==> {
                &&& r == Err::<Vec<Request>, TrayError>(TrayError::InvalidEmbedInfo { handle })
                &&& final(self).clients@ == old(self).clients@
            },
            dock_refusal(old(self).handles(), handle) is None && embed_info@.len() >= 2 ==> {
                &&& r is Ok
                &&& final(self).clients@ == old(self).clients@.push(
                    (TrayClient { handle, cache_name: name }),
                )
                &&& final(self).handles() == old(self).handles().push(handle)
                &&& r->Ok_0@ == embed_requests(
                    old(self).tray_window_handle,
                    handle,
                    embed_info@[0],
                    *atoms,
                ).add(reflow_spec(final(self).handles())).push(Request::Flush)
            },
    {
        match self.begin_dock(handle) {
            Err(e) => return Err(e),
            Ok(_) => {},
        }
        if embed_info.len() < 2 {
            return Err(TrayError::InvalidEmbedInfo { handle });
        }
        let version = embed_info[0];
        let tray = self.tray_window_handle;
        let mut client = TrayClient::new(handle);
        client.store_cache_name(name);
        let mut out: Vec<Request> = Vec::new();
        out.push(Request::Reparent { window: handle, parent: tray, x: 0, y: 0 });
        out.push(Request::ConfigureSize { window: handle, width: ICON_SIZE, height: ICON_SIZE });
        out.push(Request::SendMessage {
            window: handle,
            message_type: atoms.xembed,
            data: [CURRENT_TIME, atoms.xembed_embedded_notify, tray, version, 0],
        });
        out.push(Request::SaveSetInsert { window: handle });
        out.push(client.map(true));
        assert(out@ =~= embed_requests(tray, handle, version, *atoms));
        let ghost old_h = self.handles();
        proof {
            lemma_push_keeps_unique(old_h, handle);
        }
        self.clients.push(client);
        assert(self.handles() =~= old_h.push(handle));
        let mut placed = self.reflow_clients();
        out.append(&mut placed);
        out.push(Request::Flush);
        Ok(out)
    }

    /// What a key press does: `q` and Escape hide the tray window (it is not
    /// destroyed); other keys do nothing.
    pub fn handle_key_press(&self, detail: u8) -> (r: Vec<Request>)
        ensures
            r@ == key_press_requests(self.tray_window_handle, detail),
    {
        let mut out: Vec<Request> = Vec::new();
        if detail == KEYCODE_Q || detail == KEYCODE_ESCAPE {
            out.push(Request::UnmapWindow { window: self.tray_window_handle });
        }
        out
    }

    /// Tells a window-close request and a dock request apart.
    pub fn classify_client_message(format: u8, message_type: u32, data: [u32; 5], atoms: &Atoms) -> (r: ClientMessageAction)
        ensures
            r == client_message_action(format, message_type, data@, *atoms),
    {
        if format != 32 {
            ClientMessageAction::Ignore
        } else if data[0] == atoms.wm_delete_window {
            ClientMessageAction::CloseTray
        } else if message_type == atoms.tray_opcode && data[1] == SYSTEM_TRAY_REQUEST_DOCK {
            ClientMessageAction::Dock { handle: data[2] }
        } else {
            ClientMessageAction::Ignore
        }
    }
    /// One turn of the event loop. A destroyed manager only answers `Stop`.
    /// Otherwise the event is dispatched on its kind: destroy notifications as
    /// in `handle_destroy_notify`, client messages as `classify_client_message`
    /// decides, key presses as in `handle_key_press`; other events are ignored.
    pub fn handle_event(&mut self, event: &Event, atoms: &Atoms) -> (r: Reaction)
        requires
            old(self).wf(),
        ensures
            final(self).wf(),
            final(self).tray_window_handle == old(self).tray_window_handle,
            old(self).state == LoopState::Destroyed ==> {
                &&& r == Reaction::Stop
                &&& final(self).state == LoopState::Destroyed
                &&& final(self).clients@ == old(self).clients@
            },
            stops_loop(old(self).tray_window_handle, *event) ==> {
                &&& r == Reaction::Stop
                &&& final(self).state == LoopState::Destroyed
            },
            old(self).state == LoopState::Running ==> match *event {
                Event::DestroyNotify { window } => {
                    if window == old(self).tray_window_handle {
                        &&& r == Reaction::Stop
                        &&& final(self).state == LoopState::Destroyed
                        &&& final(self).clients@ == old(self).clients@
                    } else if old(self).handles().contains(window) {
                        &&& r is Perform
                        &&& final(self).clients@ == old(self).clients@.remove(
                            old(self).handles().index_of(window),
                        )
                        &&& r->Perform_0@ == reflow_spec(final(self).handles())
                        &&& final(self).state == LoopState::Running
                    } else {
                        &&& r is Perform
                        &&& r->Perform_0@.len() == 0
                        &&& final(self).clients@ == old(self).clients@
                        &&& final(self).state == LoopState::Running
                    }
                },
                Event::ClientMessage { format, message_type, data } => {
                    &&& final(self).clients@ == old(self).clients@
                    &&& final(self).state == LoopState::Running
                    &&& match client_message_action(format, message_type, data@, *atoms) {
                        ClientMessageAction::CloseTray => r is Perform && r->Perform_0@
                            == close_requests(old(self).tray_window_handle),
                        ClientMessageAction::Dock { handle } => r == (Reaction::Dock { handle }),
                        ClientMessageAction::Ignore => r is Perform && r->Perform_0@.len() == 0,
                    }
                },
                Event::KeyPress { detail } => {
                    &&& final(self).clients@ == old(self).clients@
                    &&& final(self).state == LoopState::Running
                    &&& r is Perform
                    &&& r->Perform_0@ == key_press_requests(old(self).tray_window_handle, detail)
                },
                Event::Other => {
                    &&& final(self).clients@ == old(self).clients@
                    &&& final(self).state == LoopState::Running
                    &&& r is Perform
                    &&& r->Perform_0@.len() == 0
                },
            },
    {
        if self.state == LoopState::Destroyed {
            return Reaction::Stop;
        }
        match *event {
            Event::DestroyNotify { window } => match self.handle_destroy_notify(window) {
                Ok(v) => Reaction::Perform(v),
                Err(_) => Reaction::Stop,
            },
            Event::ClientMessage { format, message_type, data } => {
                match Self::classify_client_message(format, message_type, data, atoms) {
                    ClientMessageAction::CloseTray => {
                        let mut out: Vec<Request> = Vec::new();
                        out.push(Request::UnmapWindow { window: self.tray_window_handle });
                        out.push(Request::Flush);
                        Reaction::Perform(out)
                    },
                    ClientMessageAction::Dock { handle } => Reaction::Dock { handle },
                    ClientMessageAction::Ignore => Reaction::Perform(Vec::new()),
                }
            },
            Event::KeyPress { detail } => Reaction::Perform(self.handle_key_press(detail)),
            Event::Other => Reaction::Perform(Vec::new()),
        }
    }
}

} // verus!
