use xwm::atoms::{AtomTable, Atoms, WindowState, WindowType};
use xwm::client::{
    key_grabs, map_action, relay_values, Client, ConfigureRequest, Event, KeyGrab, MapAction,
    RawEvent, Screen, Step, CONFIG_WINDOW_HEIGHT, CONFIG_WINDOW_STACK_MODE, CONFIG_WINDOW_WIDTH,
    CONFIG_WINDOW_X,
};
use xwm::keys::{self, keybinds, Command, Key, KeyCombo, Mod, XK_C, XK_Q};
use xwm::window::{into_u16, Geometry, Window};

const ROOT: u32 = 0x100;

fn client() -> Client {
    let types = vec![(10u32, WindowType::Desktop), (11, WindowType::Dock), (12, WindowType::Normal)];
    let states = vec![(20u32, WindowState::Fullscreen), (21, WindowState::Hidden)];
    Client::new(
        ROOT,
        Screen::new(0, 1920, 1080),
        0,
        Atoms { WM_DELETE_WINDOW: 1, WM_PROTOCOLS: 2 },
        &types,
        &states,
    )
}

fn request(value_mask: u16) -> ConfigureRequest {
    ConfigureRequest {
        window: 42,
        value_mask,
        x: -5,
        y: 7,
        width: 640,
        height: 480,
        border_width: 2,
        sibling: 9,
        stack_mode: 1,
    }
}

#[test]
fn close_window_chord_yields_command() {
    let mut c = client();
    let q = KeyCombo::new(keys::Event::KeyDown, &[], Key::Q);
    c.register_keybinds(vec![(q, Command::CloseWindow)]);
    let step = c.translate(&RawEvent::KeyPress { state: 0, keysym: XK_Q });
    assert!(matches!(step, Step::Deliver(Event::Command(Command::CloseWindow))));
}

#[test]
fn spawn_chord_then_unbound_chord() {
    let mut c = client();
    let key_c = KeyCombo::new(keys::Event::KeyDown, &[], Key::C);
    c.register_keybinds(vec![(key_c, Command::Spawn("alacritty".to_string()))]);
    let step = c.translate(&RawEvent::KeyPress { state: 0, keysym: XK_C });
    match step {
        Step::Deliver(Event::Command(Command::Spawn(name))) => assert_eq!(name, "alacritty"),
        other => panic!("unexpected step {:?}", other),
    }
    let step = c.translate(&RawEvent::KeyPress { state: 0, keysym: 0x7a });
    assert!(matches!(step, Step::Discard));
    let step = c.translate(&RawEvent::MapRequest { window: 77 });
    assert!(matches!(step, Step::Deliver(Event::MapRequest(77))));
}

#[test]
fn release_and_modifiers_must_match() {
    let mut c = client();
    c.register_keybinds(keybinds());
    assert!(matches!(
        c.translate(&RawEvent::KeyRelease { state: 0, keysym: XK_Q }),
        Step::Discard
    ));
    assert!(matches!(
        c.translate(&RawEvent::KeyPress { state: 4, keysym: XK_Q }),
        Step::Discard
    ));
    let up = KeyCombo::new(keys::Event::KeyUp, &[Mod::Control], Key::H);
    c.register_keybinds(vec![(up, Command::CloseWindow)]);
    assert!(matches!(
        c.translate(&RawEvent::KeyRelease { state: 4, keysym: 0x68 }),
        Step::Deliver(Event::Command(Command::CloseWindow))
    ));
}

#[test]
fn registering_twice_keeps_commands() {
    let mut c = client();
    c.register_keybinds(keybinds());
    c.register_keybinds(keybinds());
    let q = KeyCombo::from((0, XK_Q));
    let key_c = KeyCombo::from((0, XK_C));
    assert!(matches!(c.keymap.get(&q), Some(Command::CloseWindow)));
    match c.keymap.get(&key_c) {
        Some(Command::Spawn(name)) => assert_eq!(name, "alacritty"),
        other => panic!("unexpected command {:?}", other),
    }
}

#[test]
fn later_bind_replaces_earlier() {
    let mut c = client();
    let q = KeyCombo::from((0, XK_Q));
    c.register_keybinds(vec![
        (q, Command::CloseWindow),
        (q, Command::Spawn("xterm".to_string())),
    ]);
    match c.keymap.get(&q) {
        Some(Command::Spawn(name)) => assert_eq!(name, "xterm"),
        other => panic!("unexpected command {:?}", other),
    }
}

#[test]
fn configure_relays_only_flagged_fields() {
    let c = client();
    match c.translate(&RawEvent::ConfigureRequest(request(CONFIG_WINDOW_X | CONFIG_WINDOW_WIDTH))) {
        Step::Configure { window, values } => {
            assert_eq!(window, 42);
            assert_eq!(values, vec![(CONFIG_WINDOW_X, 0xFFFF_FFFB), (CONFIG_WINDOW_WIDTH, 640)]);
        }
        other => panic!("unexpected step {:?}", other),
    }
}

#[test]
fn configure_relays_every_field_in_order() {
    let values = relay_values(&request(0x7f));
    assert_eq!(
        values,
        vec![(1, 0xFFFF_FFFB), (2, 7), (4, 640), (8, 480), (16, 2), (32, 9), (64, 1)]
    );
    assert_eq!(
        relay_values(&request(CONFIG_WINDOW_HEIGHT | CONFIG_WINDOW_STACK_MODE)),
        vec![(8, 480), (64, 1)]
    );
    assert!(relay_values(&request(0)).is_empty());
}

#[test]
fn unmap_on_root_is_discarded() {
    let c = client();
    assert!(matches!(
        c.translate(&RawEvent::UnmapNotify { event: ROOT, window: 5 }),
        Step::Discard
    ));
    assert!(matches!(
        c.translate(&RawEvent::UnmapNotify { event: 5, window: 5 }),
        Step::Deliver(Event::UnmapNotify(5))
    ));
}

#[test]
fn notifications_are_delivered() {
    let c = client();
    assert!(matches!(
        c.translate(&RawEvent::DestroyNotify { window: 6 }),
        Step::Deliver(Event::DestroyNotify(6))
    ));
    assert!(matches!(
        c.translate(&RawEvent::EnterNotify { window: 8 }),
        Step::Deliver(Event::EnterNotify(8))
    ));
    assert!(matches!(c.translate(&RawEvent::Other), Step::Discard));
}

#[test]
fn classify_drops_unknown_atoms() {
    let c = client();
    let hint = vec![12u32, 99, 11];
    assert_eq!(c.get_window_types(Some(&hint)), vec![WindowType::Normal, WindowType::Dock]);
    let hint = vec![21u32, 10, 20];
    assert_eq!(c.get_window_states(Some(&hint)), vec![WindowState::Hidden, WindowState::Fullscreen]);
}

#[test]
fn classify_failed_query_is_empty() {
    let c = client();
    assert!(c.get_window_types(None).is_empty());
    assert!(c.get_window_states(None).is_empty());
}

#[test]
fn atom_table_later_pair_wins() {
    let t = AtomTable::from_pairs(&vec![(3u32, WindowType::Menu), (3, WindowType::Dialog), (4, WindowType::Dnd)]);
    assert_eq!(t.get(3), Some(WindowType::Dialog));
    assert_eq!(t.get(4), Some(WindowType::Dnd));
    assert_eq!(t.get(5), None);
}

#[test]
fn dock_is_mapped_but_not_managed() {
    assert_eq!(map_action(false, &vec![WindowType::Dock]), MapAction::MapOnly);
    assert_eq!(map_action(false, &vec![WindowType::Normal, WindowType::Toolbar]), MapAction::MapOnly);
    assert_eq!(map_action(false, &vec![WindowType::Desktop]), MapAction::MapOnly);
    assert_eq!(map_action(false, &vec![WindowType::Normal]), MapAction::Manage);
    assert_eq!(map_action(false, &vec![]), MapAction::Manage);
    assert_eq!(map_action(true, &vec![WindowType::Normal]), MapAction::Ignore);
}

#[test]
fn combo_masks_and_keysyms() {
    let k = KeyCombo::new(keys::Event::KeyDown, &[Mod::Shift, Mod::Control], Key::X);
    assert_eq!(k, KeyCombo { mods: 5, key: 0x78, event: keys::Event::KeyDown });
    let k = KeyCombo::new(keys::Event::KeyUp, &[Mod::Alt, Mod::Super, Mod::Caps], Key::L);
    assert_eq!(k, KeyCombo { mods: 8 | 64 | 2, key: 0x6c, event: keys::Event::KeyUp });
    assert_eq!(KeyCombo::from((4, 0x71)), KeyCombo { mods: 4, key: 0x71, event: keys::Event::KeyDown });
}

#[test]
fn default_keybinds() {
    let binds = keybinds();
    assert_eq!(binds.len(), 2);
    assert_eq!(binds[0].0, KeyCombo { mods: 0, key: 0x63, event: keys::Event::KeyDown });
    assert!(matches!(&binds[0].1, Command::Spawn(name) if name == "alacritty"));
    assert_eq!(binds[1].0, KeyCombo { mods: 0, key: 0x71, event: keys::Event::KeyDown });
    assert!(matches!(binds[1].1, Command::CloseWindow));
}

#[test]
fn grabs_skip_unresolved_keys() {
    let a = KeyCombo { mods: 0x1_0004, key: 0x71, event: keys::Event::KeyDown };
    let b = KeyCombo { mods: 8, key: 0x63, event: keys::Event::KeyDown };
    let grabs = key_grabs(&vec![(a, Some(24)), (b, None), (b, Some(54))]);
    assert_eq!(
        grabs,
        vec![KeyGrab { modifiers: 4, keycode: 24 }, KeyGrab { modifiers: 8, keycode: 54 }]
    );
}

#[test]
fn size_hints_are_truncated() {
    assert_eq!(into_u16((-1, 70000)), (65535, 4464));
    assert_eq!(into_u16((300, 0)), (300, 0));
    let geom = Geometry { x: 1, y: 2, width: 3, height: 4 };
    let w = Window::from_id(9, geom, Some((100, 200)), None, Some((-2, 65536)));
    assert_eq!(w.id, 9);
    assert_eq!(w.geom, geom);
    assert_eq!(w.base_size, (100, 200));
    assert_eq!(w.min_size, (0, 0));
    assert_eq!(w.max_size, (65534, 0));
}
