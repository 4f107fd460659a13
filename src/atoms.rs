//! Window type and state hints, and the tables that map atoms to them.
use vstd::prelude::*;
use crate::assoc::{insert_all, lemma_insert_all_absent, lemma_insert_all_last, lemma_insert_all_update, has_key};

verus! {

/// An EWMH window type.
#[derive(Copy, Clone, Debug, PartialEq, Eq, Structural)]
pub enum WindowType {
    Desktop,
    Dock,
    Toolbar,
    Menu,
    Utility,
    Splash,
    Dialog,
    DropdownMenu,
    PopupMenu,
    Tooltip,
    Notification,
    Combo,
    Dnd,
    Normal,
}

/// An EWMH window state.
#[derive(Copy, Clone, Debug, PartialEq, Eq, Structural)]
pub enum WindowState {
    Modal,
    Sticky,
    MaximizedVert,
    MaximizedHorz,
    Shaded,
    SkipTaskbar,
    SkipPager,
    Hidden,
    Fullscreen,
    Above,
    Below,
    DemandsAttention,
}

/// The atoms of the close-window protocol.
#[allow(non_snake_case)]
#[derive(Copy, Clone, Debug)]
pub struct Atoms {
    pub WM_DELETE_WINDOW: u32,
    pub WM_PROTOCOLS: u32,
}

/// A table from atoms to values. Each atom appears at most once.
pub struct AtomTable<T> {
    entries: Vec<(u32, T)>,
}

/// The values of the atoms of `atoms` that `table` knows, in order; the others
/// are left out.
pub open spec fn classify<T>(table: Map<u32, T>, atoms: Seq<u32>) -> Seq<T>
    decreases atoms.len(),
{
    if atoms.len() == 0 {
        Seq::empty()
    } else {
        let rest = classify(table, atoms.drop_last());
        if table.contains_key(atoms.last()) {
            rest.push(table[atoms.last()])
        } else {
            rest
        }
    }
}

impl<T: Copy> AtomTable<T> {
    pub closed spec fn view(&self) -> Map<u32, T> {
        insert_all(Map::empty(), self.entries@)
    }

    pub closed spec fn wf(&self) -> bool {
        forall|i: int, j: int|
            0 <= i < j < self.entries@.len() ==> #[trigger] self.entries@[i].0 != #[trigger] self.entries@[j].0
    }

    fn find(&self, atom: u32) -> (r: Option<usize>)
        ensures
            match r {
                Some(i) => i < self.entries@.len() && self.entries@[i as int].0 == atom
                    && forall|j: int| i < j < self.entries@.len() ==> #[trigger] self.entries@[j].0 != atom,
                None => !has_key(self.entries@, atom),
            },
    {
        let mut i: usize = self.entries.len();
        while i > 0
            invariant
                i <= self.entries@.len(),
                forall|j: int| i <= j < self.entries@.len() ==> #[trigger] self.entries@[j].0 != atom,
            decreases i,
        {
            if self.entries[i - 1].0 == atom {
                return Some(i - 1);
            }
            i = i - 1;
        }
        None
    }

    /// The table made by inserting `pairs` in order; a later pair for the same
    /// atom replaces an earlier one.
    pub fn from_pairs(pairs: &Vec<(u32, T)>) -> (r: AtomTable<T>)
        ensures
            r.wf(),
            r@ == insert_all(Map::empty(), pairs@),
    {
        let mut table = AtomTable { entries: Vec::new() };
        let mut i: usize = 0;
        while i < pairs.len()
            invariant
                i <= pairs@.len(),
                table.wf(),
                table@ == insert_all(Map::empty(), pairs@.subrange(0, i as int)),
            decreases pairs@.len() - i,
        {
            assert(pairs@.subrange(0, i as int + 1).drop_last() =~= pairs@.subrange(0, i as int));
            let (atom, value) = pairs[i];
            match table.find(atom) {
                Some(j) => {
                    proof {
                        lemma_insert_all_update(Map::empty(), table.entries@, j as int, value);
                    }
                    table.entries.set(j, (atom, value));
                },
                None => {
                    proof {
                        assert(table.entries@.push((atom, value)).drop_last() =~= table.entries@);
                    }
                    table.entries.push((atom, value));
                },
            }
            i = i + 1;
        }
        assert(pairs@.subrange(0, pairs@.len() as int) =~= pairs@);
        table
    }

    /// The value of `atom`, if the table has it.
    pub fn get(&self, atom: u32) -> (r: Option<T>)
        ensures
            match r {
                Some(v) => self@.contains_key(atom) && v == self@[atom],
                None => !self@.contains_key(atom),
            },
    {
        match self.find(atom) {
            Some(i) => {
                proof {
                    lemma_insert_all_last(Map::empty(), self.entries@, i as int, atom);
                }
                Some(self.entries[i].1)
            },
            None => {
                proof {
                    lemma_insert_all_absent(Map::empty(), self.entries@, atom);
                }
                None
            },
        }
    }

    /// The values of the atoms of `atoms` that the table knows, in order.
    pub fn classify(&self, atoms: &Vec<u32>) -> (r: Vec<T>)
        ensures
            r@ == classify(self@, atoms@),
    {
        let mut out: Vec<T> = Vec::new();
        let mut i: usize = 0;
        while i < atoms.len()
            invariant
                i <= atoms@.len(),
                out@ == classify(self@, atoms@.subrange(0, i as int)),
            decreases atoms@.len() - i,
        {
            assert(atoms@.subrange(0, i as int + 1).drop_last() =~= atoms@.subrange(0, i as int));
            if let Some(v) = self.get(atoms[i]) {
                out.push(v);
            }
            i = i + 1;
        }
        assert(atoms@.subrange(0, atoms@.len() as int) =~= atoms@);
        out
    }
}

} // verus!
