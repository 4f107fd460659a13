//! Key chords, the commands bound to them, and the registry of binds.
use vstd::prelude::*;
use crate::assoc::{insert_all, lemma_insert_all_absent, lemma_insert_all_last, lemma_insert_all_update, has_key};

verus! {

/// Protocol modifier masks.
pub const MOD_MASK_SHIFT: u32 = 1;
pub const MOD_MASK_LOCK: u32 = 2;
pub const MOD_MASK_CONTROL: u32 = 4;
pub const MOD_MASK_1: u32 = 8;
pub const MOD_MASK_4: u32 = 64;

/// Keysym values of the keys that can be bound.
pub const XK_Q: u32 = 0x71;
pub const XK_X: u32 = 0x78;
pub const XK_C: u32 = 0x63;
pub const XK_H: u32 = 0x68;
pub const XK_L: u32 = 0x6c;

/// What a bound chord asks for.
#[derive(Debug, Clone)]
pub enum Command {
    /// Launch the named program, detached, with no arguments.
    Spawn(String),
    CloseWindow,
}

impl Command {
    /// A copy of this command.
    pub fn duplicate(&self) -> (r: Command)
        ensures
            r == *self,
    {
        match self {
            Command::Spawn(name) => Command::Spawn(name.clone()),
            Command::CloseWindow => Command::CloseWindow,
        }
    }
}

/// Direction of a key event.
#[derive(Debug, Copy, Clone, PartialEq, Eq, Hash, Structural)]
pub enum Event {
    KeyDown,
    KeyUp,
}

/// A modifier key.
#[derive(Debug, Copy, Clone, PartialEq, Eq)]
pub enum Mod {
    Shift,
    Caps,
    Control,
    Alt,
    Super,
}

impl Mod {
    pub open spec fn spec_mask(&self) -> u32 {
        match self {
            Mod::Shift => MOD_MASK_SHIFT,
            Mod::Caps => MOD_MASK_LOCK,
            Mod::Control => MOD_MASK_CONTROL,
            Mod::Alt => MOD_MASK_1,
            Mod::Super => MOD_MASK_4,
        }
    }

    /// The protocol modifier mask of this key.
    #[verifier::when_used_as_spec(spec_mask)]
    pub fn mask(&self) -> (r: u32)
        ensures
            r == self.spec_mask(),
    {
        match self {
            Mod::Shift => MOD_MASK_SHIFT,
            Mod::Caps => MOD_MASK_LOCK,
            Mod::Control => MOD_MASK_CONTROL,
            Mod::Alt => MOD_MASK_1,
            Mod::Super => MOD_MASK_4,
        }
    }
}

/// A key that can be bound.
#[derive(Debug, Copy, Clone, PartialEq, Eq)]
pub enum Key {
    Q,
    X,
    C,
    H,
    L,
}

impl Key {
    pub open spec fn spec_keysym(&self) -> u32 {
        match self {
            Key::Q => XK_Q,
            Key::X => XK_X,
            Key::C => XK_C,
            Key::H => XK_H,
            Key::L => XK_L,
        }
    }

    /// The keysym of this key.
    #[verifier::when_used_as_spec(spec_keysym)]
    pub fn keysym(&self) -> (r: u32)
        ensures
            r == self.spec_keysym(),
    {
        match self {
            Key::Q => XK_Q,
            Key::X => XK_X,
            Key::C => XK_C,
            Key::H => XK_H,
            Key::L => XK_L,
        }
    }
}

/// The union of the masks of `mods`.
pub open spec fn mods_mask(mods: Seq<Mod>) -> u32
    decreases mods.len(),
{
    if mods.len() == 0 {
        0
    } else {
        mods_mask(mods.drop_last()) | mods.last().spec_mask()
    }
}

/// A chord: modifier mask, keysym and direction, matched exactly.
#[derive(Debug, Copy, Clone, PartialEq, Eq, Hash, Structural)]
pub struct KeyCombo {
    pub mods: u32,
    pub key: u32,
    pub event: Event,
}

impl KeyCombo {
    pub fn new(event: Event, mods: &[Mod], key: Key) -> (r: KeyCombo)
        ensures
            r.mods == mods_mask(mods@),
            r.key == key.spec_keysym(),
            r.event == event,
    {
        let mut acc: u32 = 0;
        let mut i: usize = 0;
        while i < mods.len()
            invariant
                i <= mods@.len(),
                acc == mods_mask(mods@.subrange(0, i as int)),
            decreases mods@.len() - i,
        {
            assert(mods@.subrange(0, i as int + 1).drop_last() =~= mods@.subrange(0, i as int));
            acc = acc | mods[i].mask();
            i = i + 1;
        }
        assert(mods@.subrange(0, mods@.len() as int) =~= mods@);
        KeyCombo { mods: acc, key: key.keysym(), event }
    }
}

impl From<(u32, u32)> for KeyCombo {
    /// A key-press chord from a modifier mask and a keysym.
    fn from(item: (u32, u32)) -> (r: KeyCombo) {
        KeyCombo { mods: item.0, key: item.1, event: Event::KeyDown }
    }
}

impl vstd::std_specs::convert::FromSpecImpl<(u32, u32)> for KeyCombo {
    open spec fn obeys_from_spec() -> bool {
        true
    }

    open spec fn from_spec(item: (u32, u32)) -> KeyCombo {
        KeyCombo { mods: item.0, key: item.1, event: Event::KeyDown }
    }
}

/// The chord-to-command table. Each chord appears at most once.
pub struct KeyBinds {
    entries: Vec<(KeyCombo, Command)>,
}

impl KeyBinds {
    pub closed spec fn view(&self) -> Map<KeyCombo, Command> {
        insert_all(Map::empty(), self.entries@)
    }

    pub closed spec fn wf(&self) -> bool {
        forall|i: int, j: int|
            0 <= i < j < self.entries@.len() ==> #[trigger] self.entries@[i].0 != #[trigger] self.entries@[j].0
    }

    /// An empty table.
    pub fn new() -> (r: KeyBinds)
        ensures
            r.wf(),
            r@ == Map::<KeyCombo, Command>::empty(),
    {
        KeyBinds { entries: Vec::new() }
    }

    /// Index of the entry for `combo`, if any.
    fn find(&self, combo: &KeyCombo) -> (r: Option<usize>)
        ensures
            match r {
                Some(i) => i < self.entries@.len() && self.entries@[i as int].0 == *combo
                    && forall|j: int| i < j < self.entries@.len() ==> #[trigger] self.entries@[j].0 != *combo,
                None => !has_key(self.entries@, *combo),
            },
    {
        let mut i: usize = self.entries.len();
        while i > 0
            invariant
                i <= self.entries@.len(),
                forall|j: int| i <= j < self.entries@.len() ==> #[trigger] self.entries@[j].0 != *combo,
            decreases i,
        {
            if self.entries[i - 1].0 == *combo {
                return Some(i - 1);
            }
            i = i - 1;
        }
        None
    }

    /// The command bound to `combo`, if any.
    pub fn get(&self, combo: &KeyCombo) -> (r: Option<&Command>)
        ensures
            match r {
                Some(c) => self@.contains_key(*combo) && *c == self@[*combo],
                None => !self@.contains_key(*combo),
            },
    {
        match self.find(combo) {
            Some(i) => {
                proof {
                    lemma_insert_all_last(Map::empty(), self.entries@, i as int, *combo);
                }
                Some(&self.entries[i].1)
            },
            None => {
                proof {
                    lemma_insert_all_absent(Map::empty(), self.entries@, *combo);
                }
                None
            },
        }
    }

    /// Binds `combo` to `command`, replacing an earlier command for the same chord.
    pub fn insert(&mut self, combo: KeyCombo, command: Command)
        requires
            old(self).wf(),
        ensures
            final(self).wf(),
            final(self)@ == old(self)@.insert(combo, command),
    {
        match self.find(&combo) {
            Some(i) => {
                proof {
                    lemma_insert_all_update(Map::empty(), self.entries@, i as int, command);
                }
                self.entries.set(i, (combo, command));
            },
            None => {
                proof {
                    let s = self.entries@.push((combo, command));
                    assert(s.drop_last() =~= self.entries@);
                }
                self.entries.push((combo, command));
            },
        }
    }
}

} // verus!

verus! {

/// The binds the window manager starts with: C launches a terminal, Q closes
/// the focused window; both on key press, with no modifier.
pub fn keybinds() -> (r: Vec<(KeyCombo, Command)>)
    ensures
        r@.len() == 2,
        r@[0].0 == (KeyCombo { mods: 0, key: XK_C, event: Event::KeyDown }),
        r@[0].1 matches Command::Spawn(name) && name@ == "alacritty"@,
        r@[1].0 == (KeyCombo { mods: 0, key: XK_Q, event: Event::KeyDown }),
        r@[1].1 == Command::CloseWindow,
{
    let none: [Mod; 0] = [];
    let terminal = "alacritty".to_owned();
    proof {
        assert(none@ =~= Seq::<Mod>::empty());
    }
    let mut binds: Vec<(KeyCombo, Command)> = Vec::new();
    binds.push((KeyCombo::new(Event::KeyDown, &none, Key::C), Command::Spawn(terminal)));
    binds.push((KeyCombo::new(Event::KeyDown, &none, Key::Q), Command::CloseWindow));
    binds
}

} // verus!
