use tray_on_demand::control::{
    command_action, parse_command, receive, received_from, toggle_requests, Command,
    ControlAction, Reply,
};
use tray_on_demand::error::TrayError;
use tray_on_demand::protocol::{event_kind, Event, EventKind, Request};
use tray_on_demand::tray_client::TrayClient;
use tray_on_demand::tray_manager::{Atoms, ClientMessageAction, Reaction, TrayManager};

const TRAY: u32 = 0x0400_0001;

fn atoms() -> Atoms {
    Atoms { wm_delete_window: 301, tray_opcode: 302, xembed: 303, xembed_embedded_notify: 304 }
}

fn dock(m: &mut TrayManager, handle: u32) -> Vec<Request> {
    m.begin_dock(handle).unwrap();
    m.dock(handle, Some(format!("client {}", handle)), &vec![1, 0], &atoms()).unwrap()
}

fn placement(window: u32, slot: u32) -> Request {
    Request::ConfigurePosition { window, x: 10 + slot * 32, y: 10 }
}

#[derive(Clone, Copy, Debug, PartialEq)]
enum Seen {
    Mapped,
    Unmapped,
    Destroyed,
}

fn perform(state: Seen, reqs: &[Request]) -> Seen {
    let mut s = state;
    for r in reqs {
        if s == Seen::Destroyed {
            break;
        }
        match *r {
            Request::MapWindow { window } if window == TRAY => s = Seen::Mapped,
            Request::UnmapWindow { window } if window == TRAY => s = Seen::Unmapped,
            Request::DestroyWindow { window } if window == TRAY => s = Seen::Destroyed,
            _ => {}
        }
    }
    s
}

#[test]
fn event_kinds_ignore_sent_flag() {
    assert_eq!(event_kind(17), EventKind::DestroyNotify);
    assert_eq!(event_kind(17 | 0x80), EventKind::DestroyNotify);
    assert_eq!(event_kind(33), EventKind::ClientMessage);
    assert_eq!(event_kind(33 | 0x80), EventKind::ClientMessage);
    assert_eq!(event_kind(2), EventKind::KeyPress);
    assert_eq!(event_kind(12), EventKind::Other);
    assert_eq!(event_kind(0x80), EventKind::Other);
}

#[test]
fn tray_error_new_is_generic() {
    assert_eq!(
        TrayError::new("Couldn't get screen 3".to_string()),
        TrayError::Generic { name: "Couldn't get screen 3".to_string() }
    );
}

#[test]
fn client_requests() {
    let mut c = TrayClient::new(77);
    assert_eq!(c.handle, 77);
    assert_eq!(c.cache_name, None);
    assert_eq!(c.map(true), Request::MapWindow { window: 77 });
    assert_eq!(c.map(false), Request::UnmapWindow { window: 77 });
    assert_eq!(c.reconfigure_placement(42, 10), Request::ConfigurePosition { window: 77, x: 42, y: 10 });
    c.store_cache_name(Some("nm-applet".to_string()));
    assert_eq!(c.cache_name, Some("nm-applet".to_string()));
    assert_eq!(c.handle, 77);
}

#[test]
fn new_manager_is_empty_and_running() {
    let m = TrayManager::new(TRAY);
    assert_eq!(m.tray_window_handle, TRAY);
    assert!(m.client_handles().is_empty());
    assert!(!m.is_destroyed());
    assert!(m.reflow_clients().is_empty());
}

#[test]
fn dock_embeds_and_places() {
    let mut m = TrayManager::new(TRAY);
    assert_eq!(m.begin_dock(500), Ok(vec![Request::SubscribeEvents { window: 500 }]));
    let reqs = m.dock(500, None, &vec![7, 1], &atoms()).unwrap();
    assert_eq!(
        reqs,
        vec![
            Request::Reparent { window: 500, parent: TRAY, x: 0, y: 0 },
            Request::ConfigureSize { window: 500, width: 32, height: 32 },
            Request::SendMessage { window: 500, message_type: 303, data: [0, 304, TRAY, 7, 0] },
            Request::SaveSetInsert { window: 500 },
            Request::MapWindow { window: 500 },
            placement(500, 0),
            Request::Flush,
        ]
    );
    assert_eq!(m.client_handles(), vec![500]);
    assert_eq!(m.clients[0].cache_name, None);
}

#[test]
fn registry_size_and_slots_follow_dock_order() {
    let mut m = TrayManager::new(TRAY);
    for h in [11u32, 12, 13, 14] {
        dock(&mut m, h);
    }
    assert_eq!(m.client_handles(), vec![11, 12, 13, 14]);
    assert_eq!(
        m.reflow_clients(),
        vec![placement(11, 0), placement(12, 1), placement(13, 2), placement(14, 3)]
    );
    assert_eq!(m.reflow_clients()[2], Request::ConfigurePosition { window: 13, x: 74, y: 10 });
    assert_eq!(m.handle_destroy_notify(12), Ok(vec![placement(11, 0), placement(13, 1), placement(14, 2)]));
    assert_eq!(m.handle_destroy_notify(11), Ok(vec![placement(13, 0), placement(14, 1)]));
    assert_eq!(m.client_handles().len(), 4 - 2);
    assert_eq!(m.clients[0].cache_name, Some("client 13".to_string()));
}

#[test]
fn second_dock_of_one_handle_is_refused() {
    let mut m = TrayManager::new(TRAY);
    dock(&mut m, 40);
    assert_eq!(m.begin_dock(40), Err(TrayError::AlreadyDocked { handle: 40 }));
    assert_eq!(
        m.dock(40, None, &vec![0, 1], &atoms()),
        Err(TrayError::AlreadyDocked { handle: 40 })
    );
    assert_eq!(m.client_handles(), vec![40]);
}

#[test]
fn missing_embed_info_refuses_dock() {
    let mut m = TrayManager::new(TRAY);
    assert_eq!(m.dock(41, None, &vec![], &atoms()), Err(TrayError::InvalidEmbedInfo { handle: 41 }));
    assert_eq!(m.dock(41, None, &vec![0], &atoms()), Err(TrayError::InvalidEmbedInfo { handle: 41 }));
    assert!(m.client_handles().is_empty());
}

#[test]
fn destroy_of_unknown_handle_is_noop() {
    let mut m = TrayManager::new(TRAY);
    dock(&mut m, 21);
    dock(&mut m, 22);
    assert_eq!(m.handle_destroy_notify(999), Ok(vec![]));
    assert_eq!(m.client_handles(), vec![21, 22]);
    assert!(!m.is_destroyed());
    assert_eq!(m.handle_event(&Event::DestroyNotify { window: 998 }, &atoms()), Reaction::Perform(vec![]));
    assert_eq!(m.client_handles(), vec![21, 22]);
}

#[test]
fn destroy_of_tray_stops_loop() {
    let mut m = TrayManager::new(TRAY);
    dock(&mut m, 31);
    assert_eq!(m.handle_destroy_notify(TRAY), Err(TrayError::Destroyed));
    assert!(m.is_destroyed());
    let mut m = TrayManager::new(TRAY);
    dock(&mut m, 31);
    assert_eq!(m.handle_event(&Event::DestroyNotify { window: TRAY }, &atoms()), Reaction::Stop);
    assert!(m.is_destroyed());
    assert_eq!(m.handle_event(&Event::KeyPress { detail: 9 }, &atoms()), Reaction::Stop);
    assert_eq!(m.handle_event(&Event::DestroyNotify { window: 31 }, &atoms()), Reaction::Stop);
    assert_eq!(m.client_handles(), vec![31]);
}

#[test]
fn client_messages_are_classified() {
    let a = atoms();
    assert_eq!(TrayManager::classify_client_message(32, 1, [301, 0, 0, 0, 0], &a), ClientMessageAction::CloseTray);
    assert_eq!(TrayManager::classify_client_message(32, 302, [0, 0, 55, 0, 0], &a), ClientMessageAction::Dock { handle: 55 });
    assert_eq!(TrayManager::classify_client_message(32, 302, [0, 1, 55, 0, 0], &a), ClientMessageAction::Ignore);
    assert_eq!(TrayManager::classify_client_message(32, 999, [0, 0, 55, 0, 0], &a), ClientMessageAction::Ignore);
    assert_eq!(TrayManager::classify_client_message(8, 302, [0, 0, 55, 0, 0], &a), ClientMessageAction::Ignore);
}

#[test]
fn event_loop_dispatch() {
    let mut m = TrayManager::new(TRAY);
    let a = atoms();
    let close = Event::ClientMessage { format: 32, message_type: 1, data: [301, 0, 0, 0, 0] };
    assert_eq!(
        m.handle_event(&close, &a),
        Reaction::Perform(vec![Request::UnmapWindow { window: TRAY }, Request::Flush])
    );
    assert!(!m.is_destroyed());
    let req = Event::ClientMessage { format: 32, message_type: 302, data: [0, 0, 66, 0, 0] };
    assert_eq!(m.handle_event(&req, &a), Reaction::Dock { handle: 66 });
    assert_eq!(m.handle_event(&Event::KeyPress { detail: 24 }, &a), Reaction::Perform(vec![Request::UnmapWindow { window: TRAY }]));
    assert_eq!(m.handle_event(&Event::KeyPress { detail: 9 }, &a), Reaction::Perform(vec![Request::UnmapWindow { window: TRAY }]));
    assert_eq!(m.handle_event(&Event::KeyPress { detail: 38 }, &a), Reaction::Perform(vec![]));
    assert_eq!(m.handle_event(&Event::Other, &a), Reaction::Perform(vec![]));
    assert!(!m.is_destroyed());
}

#[test]
fn key_press_hides_only_on_quit_keys() {
    let m = TrayManager::new(TRAY);
    assert_eq!(m.handle_key_press(24), vec![Request::UnmapWindow { window: TRAY }]);
    assert_eq!(m.handle_key_press(9), vec![Request::UnmapWindow { window: TRAY }]);
    assert_eq!(m.handle_key_press(10), vec![]);
}

#[test]
fn commands_are_parsed() {
    assert_eq!(parse_command(b"show"), Command::Show);
    assert_eq!(parse_command(b"hide"), Command::Hide);
    assert_eq!(parse_command(b"toggle"), Command::Toggle);
    assert_eq!(parse_command(b"quit"), Command::Quit);
    assert_eq!(parse_command(b"Show"), Command::Unknown);
    assert_eq!(parse_command(b"show "), Command::Unknown);
    assert_eq!(parse_command(b""), Command::Unknown);
}

#[test]
fn text_frames_are_acknowledged() {
    let r = receive("show".as_bytes());
    assert_eq!(r.reply, Reply::Ack);
    assert_eq!(r.command, Some(Command::Show));
    let r = receive("dance".as_bytes());
    assert_eq!(r.reply, Reply::Ack);
    assert_eq!(r.command, Some(Command::Unknown));
    assert_eq!(r.reply.text(), "ok");
    let r = receive("héllo".as_bytes());
    assert_eq!(r.reply, Reply::Ack);
}

#[test]
fn non_utf8_frame_gets_err() {
    let r = receive(&[0x73, 0xff, 0xfe]);
    assert_eq!(r.reply, Reply::Invalid);
    assert_eq!(r.command, None);
    assert_eq!(r.reply.text(), "err");
    let r = receive(&[0xc3]);
    assert_eq!(r.reply, Reply::Invalid);
    assert_eq!(received_from(false, b"show").command, None);
    assert_eq!(received_from(true, b"hide").command, Some(Command::Hide));
}

#[test]
fn toggle_follows_map_state() {
    assert_eq!(toggle_requests(TRAY, 2), vec![Request::UnmapWindow { window: TRAY }]);
    assert_eq!(
        toggle_requests(TRAY, 1),
        vec![Request::UnmapWindow { window: TRAY }, Request::MapWindow { window: TRAY }]
    );
    assert_eq!(toggle_requests(TRAY, 0), vec![Request::MapWindow { window: TRAY }]);
    assert_eq!(toggle_requests(TRAY, 7), vec![]);
}

#[test]
fn show_then_hide() {
    let r = receive(b"show");
    assert_eq!(r.reply.text(), "ok");
    assert_eq!(command_action(r.command.unwrap(), TRAY), ControlAction::Perform(vec![Request::MapWindow { window: TRAY }]));
    let r = receive(b"hide");
    assert_eq!(r.reply.text(), "ok");
    assert_eq!(command_action(r.command.unwrap(), TRAY), ControlAction::Perform(vec![Request::UnmapWindow { window: TRAY }]));
    assert_eq!(command_action(Command::Quit, TRAY), ControlAction::Perform(vec![Request::DestroyWindow { window: TRAY }]));
    assert_eq!(command_action(Command::Toggle, TRAY), ControlAction::QueryMapState);
    assert_eq!(command_action(Command::Unknown, TRAY), ControlAction::Perform(vec![]));
}

#[test]
fn end_to_end_hide_show_quit() {
    let mut m = TrayManager::new(TRAY);
    let mut state = Seen::Mapped;
    for (frame, expected) in [("hide", Seen::Unmapped), ("show", Seen::Mapped), ("quit", Seen::Destroyed)] {
        let r = receive(frame.as_bytes());
        assert_eq!(r.reply.text(), "ok");
        match command_action(r.command.unwrap(), TRAY) {
            ControlAction::Perform(reqs) => state = perform(state, &reqs),
            ControlAction::QueryMapState => panic!("no toggle sent"),
        }
        assert_eq!(state, expected);
    }
    assert_eq!(m.handle_event(&Event::DestroyNotify { window: TRAY }, &atoms()), Reaction::Stop);
    assert!(m.is_destroyed());
    assert_eq!(m.handle_event(&Event::Other, &atoms()), Reaction::Stop);
}
