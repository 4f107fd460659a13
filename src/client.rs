//! The window manager's state, the bind registration and the event translator.
use vstd::prelude::*;
use crate::assoc::{insert_all, lemma_insert_all_idempotent};
use crate::atoms::{classify, AtomTable, Atoms, WindowState, WindowType};
use crate::keys::{self, Command, KeyBinds, KeyCombo};

verus! {

/// Value-mask bits of a configure request, in the order of its values.
pub const CONFIG_WINDOW_X: u16 = 1;
pub const CONFIG_WINDOW_Y: u16 = 2;
pub const CONFIG_WINDOW_WIDTH: u16 = 4;
pub const CONFIG_WINDOW_HEIGHT: u16 = 8;
pub const CONFIG_WINDOW_BORDER_WIDTH: u16 = 16;
pub const CONFIG_WINDOW_SIBLING: u16 = 32;
pub const CONFIG_WINDOW_STACK_MODE: u16 = 64;

/// Geometry of the screen being managed.
#[derive(Copy, Clone, Debug)]
pub struct Screen {
    pub idx: i32,
    pub x: u16,
    pub y: u16,
    pub width: u16,
    pub height: u16,
}

impl Screen {
    /// The screen `idx`, of the given size, placed at the origin.
    pub fn new(idx: i32, width: u16, height: u16) -> (r: Screen)
        ensures
            r.idx == idx,
            r.x == 0,
            r.y == 0,
            r.width == width,
            r.height == height,
    {
        Screen { idx, x: 0, y: 0, width, height }
    }
}

/// A configure request as the server delivered it.
#[derive(Copy, Clone, Debug)]
pub struct ConfigureRequest {
    pub window: u32,
    pub value_mask: u16,
    pub x: i16,
    pub y: i16,
    pub width: u16,
    pub height: u16,
    pub border_width: u16,
    pub sibling: u32,
    pub stack_mode: u8,
}

/// A raw protocol event, decoded.
#[derive(Copy, Clone, Debug)]
pub enum RawEvent {
    ConfigureRequest(ConfigureRequest),
    MapRequest { window: u32 },
    /// `event` is the window the notification was reported on.
    UnmapNotify { event: u32, window: u32 },
    DestroyNotify { window: u32 },
    EnterNotify { window: u32 },
    /// `keysym` is the key the pressed keycode stands for in the current mapping.
    KeyPress { state: u16, keysym: u32 },
    KeyRelease { state: u16, keysym: u32 },
    Other,
}

/// An event that the caller handles.
#[derive(Debug, Clone)]
pub enum Event {
    MapRequest(u32),
    UnmapNotify(u32),
    DestroyNotify(u32),
    EnterNotify(u32),
    Command(Command),
}

/// What to do with one raw event.
#[derive(Debug)]
pub enum Step {
    /// Hand the event to the caller.
    Deliver(Event),
    /// Send a configure call for `window` with these (mask bit, value) pairs, then wait for the next event.
    Configure { window: u32, values: Vec<(u16, u32)> },
    /// Drop the event and wait for the next one.
    Discard,
}

/// A passive grab of a keycode with a modifier mask on the root window.
#[derive(Copy, Clone, Debug, PartialEq, Eq, Structural)]
pub struct KeyGrab {
    pub modifiers: u16,
    pub keycode: u8,
}

/// What to do with a window whose map request arrived.
#[derive(Copy, Clone, Debug, PartialEq, Eq, Structural)]
pub enum MapAction {
    /// The window is already managed: nothing to do.
    Ignore,
    /// Map the window without managing it.
    MapOnly,
    /// Start managing the window, then map it.
    Manage,
}

/// A 16-bit signed value widened to 32 bits, two's complement.
pub open spec fn sign_extend(v: i16) -> u32 {
    if v >= 0 {
        v as u32
    } else {
        (v + 0x1_0000_0000) as u32
    }
}

/// The pair for `bit`, when `mask` has it.
pub open spec fn pick(mask: u16, bit: u16, value: u32) -> Seq<(u16, u32)> {
    if mask & bit != 0 {
        seq![(bit, value)]
    } else {
        Seq::empty()
    }
}

/// The fields of `c` that its value mask flags, as (mask bit, value) pairs in protocol order.
pub open spec fn relayed_values(c: ConfigureRequest) -> Seq<(u16, u32)> {
    pick(c.value_mask, CONFIG_WINDOW_X, sign_extend(c.x))
        + pick(c.value_mask, CONFIG_WINDOW_Y, sign_extend(c.y))
        + pick(c.value_mask, CONFIG_WINDOW_WIDTH, c.width as u32)
        + pick(c.value_mask, CONFIG_WINDOW_HEIGHT, c.height as u32)
        + pick(c.value_mask, CONFIG_WINDOW_BORDER_WIDTH, c.border_width as u32)
        + pick(c.value_mask, CONFIG_WINDOW_SIBLING, c.sibling)
        + pick(c.value_mask, CONFIG_WINDOW_STACK_MODE, c.stack_mode as u32)
}

/// The grabs for binds paired with their resolved keycodes; binds with no keycode get none.
pub open spec fn grabs_of(resolved: Seq<(KeyCombo, Option<u8>)>) -> Seq<KeyGrab>
    decreases resolved.len(),
{
    if resolved.len() == 0 {
        Seq::empty()
    } else {
        let rest = grabs_of(resolved.drop_last());
        let (combo, code) = resolved.last();
        match code {
            Some(k) => rest.push(KeyGrab { modifiers: (combo.mods % 0x10000) as u16, keycode: k }),
            None => rest,
        }
    }
}

/// Window types that are mapped but never managed.
pub open spec fn is_unmanaged_type(t: WindowType) -> bool {
    t == WindowType::Dock || t == WindowType::Toolbar || t == WindowType::Desktop
}

fn widen(v: i16) -> (r: u32)
    ensures
        r == sign_extend(v),
{
    if v >= 0 {
        v as u32
    } else {
        (v as i64 + 0x1_0000_0000i64) as u32
    }
}

/// The (mask bit, value) pairs of a configure call that passes `c` on unchanged.
pub fn relay_values(c: &ConfigureRequest) -> (r: Vec<(u16, u32)>)
    ensures
        r@ == relayed_values(*c),
{
    let m = c.value_mask;
    let mut values: Vec<(u16, u32)> = Vec::new();
    let ghost mut expect: Seq<(u16, u32)> = Seq::empty();
    if m & CONFIG_WINDOW_X != 0 {
        values.push((CONFIG_WINDOW_X, widen(c.x)));
    }
    proof { expect = expect + pick(m, CONFIG_WINDOW_X, sign_extend(c.x)); }
    assert(values@ =~= expect);
    if m & CONFIG_WINDOW_Y != 0 {
        values.push((CONFIG_WINDOW_Y, widen(c.y)));
    }
    proof { expect = expect + pick(m, CONFIG_WINDOW_Y, sign_extend(c.y)); }
    assert(values@ =~= expect);
    if m & CONFIG_WINDOW_WIDTH != 0 {
        values.push((CONFIG_WINDOW_WIDTH, c.width as u32));
    }
    proof { expect = expect + pick(m, CONFIG_WINDOW_WIDTH, c.width as u32); }
    assert(values@ =~= expect);
    if m & CONFIG_WINDOW_HEIGHT != 0 {
        values.push((CONFIG_WINDOW_HEIGHT, c.height as u32));
    }
    proof { expect = expect + pick(m, CONFIG_WINDOW_HEIGHT, c.height as u32); }
    assert(values@ =~= expect);
    if m & CONFIG_WINDOW_BORDER_WIDTH != 0 {
        values.push((CONFIG_WINDOW_BORDER_WIDTH, c.border_width as u32));
    }
    proof { expect = expect + pick(m, CONFIG_WINDOW_BORDER_WIDTH, c.border_width as u32); }
    assert(values@ =~= expect);
    if m & CONFIG_WINDOW_SIBLING != 0 {
        values.push((CONFIG_WINDOW_SIBLING, c.sibling));
    }
    proof { expect = expect + pick(m, CONFIG_WINDOW_SIBLING, c.sibling); }
    assert(values@ =~= expect);
    if m & CONFIG_WINDOW_STACK_MODE != 0 {
        values.push((CONFIG_WINDOW_STACK_MODE, c.stack_mode as u32));
    }
    proof { expect = expect + pick(m, CONFIG_WINDOW_STACK_MODE, c.stack_mode as u32); }
    assert(values@ =~= expect);
    values
}

/// A configure request that flags only the x position and the width is relayed
/// with exactly those two fields, x first.
pub proof fn lemma_relay_x_width(c: ConfigureRequest)
    requires
        c.value_mask == CONFIG_WINDOW_X | CONFIG_WINDOW_WIDTH,
    ensures
        relayed_values(c) == seq![(CONFIG_WINDOW_X, sign_extend(c.x)), (CONFIG_WINDOW_WIDTH, c.width as u32)],
{
    let m = c.value_mask;
    assert(m & 1u16 != 0 && m & 2u16 == 0 && m & 4u16 != 0 && m & 8u16 == 0 && m & 16u16 == 0
        && m & 32u16 == 0 && m & 64u16 == 0) by (bit_vector)
        requires m == 1u16 | 4u16;
    assert(relayed_values(c) =~= seq![(CONFIG_WINDOW_X, sign_extend(c.x)), (CONFIG_WINDOW_WIDTH, c.width as u32)]);
}

/// The grabs to issue for binds paired with the keycodes their keys resolve to.
pub fn key_grabs(resolved: &Vec<(KeyCombo, Option<u8>)>) -> (r: Vec<KeyGrab>)
    ensures
        r@ == grabs_of(resolved@),
{
    let mut out: Vec<KeyGrab> = Vec::new();
    let mut i: usize = 0;
    while i < resolved.len()
        invariant
            i <= resolved@.len(),
            out@ == grabs_of(resolved@.subrange(0, i as int)),
        decreases resolved@.len() - i,
    {
        assert(resolved@.subrange(0, i as int + 1).drop_last() =~= resolved@.subrange(0, i as int));
        let (combo, code) = resolved[i];
        if let Some(k) = code {
            out.push(KeyGrab { modifiers: (combo.mods % 0x10000) as u16, keycode: k });
        }
        i = i + 1;
    }
    assert(resolved@.subrange(0, resolved@.len() as int) =~= resolved@);
    out
}

/// What to do with a map request for a window, given whether it is already
/// managed and its window types.
pub fn map_action(managed: bool, types: &Vec<WindowType>) -> (r: MapAction)
    ensures
        managed ==> r == MapAction::Ignore,
        !managed && (exists|i: int| 0 <= i < types@.len() && is_unmanaged_type(#[trigger] types@[i]))
            ==> r == MapAction::MapOnly,
        !managed && !(exists|i: int| 0 <= i < types@.len() && is_unmanaged_type(#[trigger] types@[i]))
            ==> r == MapAction::Manage,
{
    if managed {
        return MapAction::Ignore;
    }
    let mut i: usize = 0;
    while i < types.len()
        invariant
            i <= types@.len(),
            !managed,
            forall|j: int| 0 <= j < i ==> !is_unmanaged_type(#[trigger] types@[j]),
        decreases types@.len() - i,
    {
        let t = types[i];
        if t == WindowType::Dock || t == WindowType::Toolbar || t == WindowType::Desktop {
            return MapAction::MapOnly;
        }
        i = i + 1;
    }
    MapAction::Manage
}

/// The chord that a key event with modifier state `state` and keysym `keysym` makes.
pub open spec fn combo_of(state: u16, keysym: u32, event: keys::Event) -> KeyCombo {
    KeyCombo { mods: state as u32, key: keysym, event }
}

/// The window manager's state on one display.
pub struct Client {
    pub root_window: u32,
    pub screen: Screen,
    pub screen_idx: i32,
    pub atoms: Atoms,
    pub window_types: AtomTable<WindowType>,
    pub window_states: AtomTable<WindowState>,
    pub keymap: KeyBinds,
    pub focused: Option<u32>,
    pub screens: Vec<u32>,
}

impl Client {
    pub open spec fn wf(&self) -> bool {
        &&& self.window_types.wf()
        &&& self.window_states.wf()
        &&& self.keymap.wf()
    }

    /// The state right after bootstrap: the atom tables are built from the
    /// (atom, value) pairs in order, and no chord is bound.
    pub fn new(
        root_window: u32,
        screen: Screen,
        screen_idx: i32,
        atoms: Atoms,
        type_atoms: &Vec<(u32, WindowType)>,
        state_atoms: &Vec<(u32, WindowState)>,
    ) -> (r: Client)
        ensures
            r.wf(),
            r.root_window == root_window,
            r.screen == screen,
            r.screen_idx == screen_idx,
            r.atoms == atoms,
            r.window_types@ == insert_all(Map::empty(), type_atoms@),
            r.window_states@ == insert_all(Map::empty(), state_atoms@),
            r.keymap@ == Map::<KeyCombo, Command>::empty(),
            r.focused is None,
            r.screens@.len() == 0,
    {
        Client {
            root_window,
            screen,
            screen_idx,
            atoms,
            window_types: AtomTable::from_pairs(type_atoms),
            window_states: AtomTable::from_pairs(state_atoms),
            keymap: KeyBinds::new(),
            focused: None,
            screens: Vec::new(),
        }
    }

    /// Adds each bind in order; a later command for the same chord replaces an
    /// earlier one.
    pub fn register_keybinds(&mut self, keybinds: Vec<(KeyCombo, Command)>)
        requires
            old(self).wf(),
        ensures
            final(self).wf(),
            final(self).keymap@ == insert_all(old(self).keymap@, keybinds@),
            final(self).root_window == old(self).root_window,
            final(self).screen == old(self).screen,
            final(self).screen_idx == old(self).screen_idx,
            final(self).atoms == old(self).atoms,
            final(self).window_types@ == old(self).window_types@,
            final(self).window_states@ == old(self).window_states@,
            final(self).focused == old(self).focused,
            final(self).screens@ == old(self).screens@,
    {
        let mut i: usize = 0;
        while i < keybinds.len()
            invariant
                i <= keybinds@.len(),
                self.wf(),
                self.keymap@ == insert_all(old(self).keymap@, keybinds@.subrange(0, i as int)),
                self.root_window == old(self).root_window,
                self.screen == old(self).screen,
                self.screen_idx == old(self).screen_idx,
                self.atoms == old(self).atoms,
                self.focused == old(self).focused,
                self.screens@ == old(self).screens@,
                self.window_types@ == old(self).window_types@,
                self.window_states@ == old(self).window_states@,
            decreases keybinds@.len() - i,
        {
            assert(keybinds@.subrange(0, i as int + 1).drop_last() =~= keybinds@.subrange(0, i as int));
            let combo = keybinds[i].0;
            let command = keybinds[i].1.duplicate();
            self.keymap.insert(combo, command);
            i = i + 1;
        }
        assert(keybinds@.subrange(0, keybinds@.len() as int) =~= keybinds@);
    }

    /// The window types named by a window's type hint, or none when the query
    /// for it failed (`None`).
    pub fn get_window_types(&self, hint: Option<&Vec<u32>>) -> (r: Vec<WindowType>)
        ensures
            match hint {
                Some(atoms) => r@ == classify(self.window_types@, atoms@),
                None => r@.len() == 0,
            },
    {
        match hint {
            Some(atoms) => self.window_types.classify(atoms),
            None => Vec::new(),
        }
    }

    /// The window states named by a window's state hint, or none when the query
    /// for it failed (`None`).
    pub fn get_window_states(&self, hint: Option<&Vec<u32>>) -> (r: Vec<WindowState>)
        ensures
            match hint {
                Some(atoms) => r@ == classify(self.window_states@, atoms@),
                None => r@.len() == 0,
            },
    {
        match hint {
            Some(atoms) => self.window_states.classify(atoms),
            None => Vec::new(),
        }
    }

    fn command_step(&self, combo: &KeyCombo) -> (r: Step)
        ensures
            self.keymap@.contains_key(*combo) ==> r == Step::Deliver(Event::Command(self.keymap@[*combo])),
            !self.keymap@.contains_key(*combo) ==> r == Step::Discard,
    {
        match self.keymap.get(combo) {
            Some(command) => Step::Deliver(Event::Command(command.duplicate())),
            None => Step::Discard,
        }
    }

    /// Decides what one raw event amounts to.
    pub fn translate(&self, raw: &RawEvent) -> (r: Step)
        ensures
            match *raw {
                RawEvent::ConfigureRequest(c) => r matches Step::Configure { window, values }
                    && window == c.window && values@ == relayed_values(c),
                RawEvent::MapRequest { window } => r == Step::Deliver(Event::MapRequest(window)),
                RawEvent::UnmapNotify { event, window } => if event == self.root_window {
                    r == Step::Discard
                } else {
                    r == Step::Deliver(Event::UnmapNotify(window))
                },
                RawEvent::DestroyNotify { window } => r == Step::Deliver(Event::DestroyNotify(window)),
                RawEvent::EnterNotify { window } => r == Step::Deliver(Event::EnterNotify(window)),
                RawEvent::KeyPress { state, keysym } => {
                    let combo = combo_of(state, keysym, keys::Event::KeyDown);
                    if self.keymap@.contains_key(combo) {
                        r == Step::Deliver(Event::Command(self.keymap@[combo]))
                    } else {
                        r == Step::Discard
                    }
                },
                RawEvent::KeyRelease { state, keysym } => {
                    let combo = combo_of(state, keysym, keys::Event::KeyUp);
                    if self.keymap@.contains_key(combo) {
                        r == Step::Deliver(Event::Command(self.keymap@[combo]))
                    } else {
                        r == Step::Discard
                    }
                },
                RawEvent::Other => r == Step::Discard,
            },
    {
        match raw {
            RawEvent::ConfigureRequest(c) => Step::Configure { window: c.window, values: relay_values(c) },
            RawEvent::MapRequest { window } => Step::Deliver(Event::MapRequest(*window)),
            RawEvent::UnmapNotify { event, window } => {
                if *event == self.root_window {
                    Step::Discard
                } else {
                    Step::Deliver(Event::UnmapNotify(*window))
                }
            },
            RawEvent::DestroyNotify { window } => Step::Deliver(Event::DestroyNotify(*window)),
            RawEvent::EnterNotify { window } => Step::Deliver(Event::EnterNotify(*window)),
            RawEvent::KeyPress { state, keysym } => {
                let combo = KeyCombo { mods: *state as u32, key: *keysym, event: keys::Event::KeyDown };
                self.command_step(&combo)
            },
            RawEvent::KeyRelease { state, keysym } => {
                let combo = KeyCombo { mods: *state as u32, key: *keysym, event: keys::Event::KeyUp };
                self.command_step(&combo)
            },
            RawEvent::Other => Step::Discard,
        }
    }
}

/// Registering the same bind list a second time leaves the command of every
/// chord as the first registration left it.
pub proof fn lemma_register_twice(keymap: Map<KeyCombo, Command>, keybinds: Seq<(KeyCombo, Command)>)
    ensures
        insert_all(insert_all(keymap, keybinds), keybinds) == insert_all(keymap, keybinds),
{
    lemma_insert_all_idempotent(keymap, keybinds);
}

} // verus!
