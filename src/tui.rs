//! The project picker: which project is selected, and how keys move the
//! selection.

use vstd::prelude::*;
use crate::projects::ProjectConfiguration;

verus! {

#[derive(Clone, Copy, Debug, PartialEq, Eq, Structural)]
pub enum Mode {
    Normal,
    SettingUp,
}

/// The keys the picker reacts to.
#[derive(Clone, Copy, Debug, PartialEq, Eq, Structural)]
pub enum Key {
    Quit,
    Down,
    Up,
    Enter,
    Other,
}

pub struct ProjectList {
    /// The index of the highlighted project, if any.
    pub selected: Option<usize>,
    pub mode: Mode,
    pub items: Vec<ProjectConfiguration>,
}

/// The selection after moving down from `sel` in a list of `len` items,
/// wrapping from the last to the first.
pub open spec fn next_of(sel: Option<usize>, len: nat) -> Option<usize> {
    if len == 0 {
        None
    } else {
        match sel {
            Some(i) => if i + 1 == len { Some(0) } else { Some((i + 1) as usize) },
            None => Some(0),
        }
    }
}

/// The selection after moving up from `sel` in a list of `len` items,
/// wrapping from the first to the last.
pub open spec fn previous_of(sel: Option<usize>, len: nat) -> Option<usize> {
    if len == 0 {
        None
    } else {
        match sel {
            Some(i) => if i == 0 { Some((len - 1) as usize) } else { Some((i - 1) as usize) },
            None => Some(0),
        }
    }
}

impl ProjectList {
    /// The selection, if any, is a valid index.
    pub open spec fn wf(&self) -> bool {
        self.selected matches Some(i) ==> i < self.items@.len()
    }

    pub fn new(items: Vec<ProjectConfiguration>) -> (r: ProjectList)
        ensures
            r.wf(),
            r.selected is None,
            r.mode == Mode::Normal,
            r.items@ == items@,
    {
        ProjectList { selected: None, mode: Mode::Normal, items }
    }

    pub fn next(&mut self)
        requires
            old(self).wf(),
        ensures
            final(self).wf(),
            final(self).selected == next_of(old(self).selected, old(self).items@.len()),
            final(self).mode == old(self).mode,
            final(self).items@ == old(self).items@,
    {
        let len = self.items.len();
        if len == 0 {
            self.selected = None;
        } else {
            self.selected = match self.selected {
                Some(i) => if i + 1 == len { Some(0) } else { Some(i + 1) },
                None => Some(0),
            };
        }
    }

    pub fn previous(&mut self)
        requires
            old(self).wf(),
        ensures
            final(self).wf(),
            final(self).selected == previous_of(old(self).selected, old(self).items@.len()),
            final(self).mode == old(self).mode,
            final(self).items@ == old(self).items@,
    {
        let len = self.items.len();
        if len == 0 {
            self.selected = None;
        } else {
            self.selected = match self.selected {
                Some(i) => if i == 0 { Some(len - 1) } else { Some(i - 1) },
                None => Some(0),
            };
        }
    }

    /// The highlighted project, if any.
    pub fn get_selected(&self) -> (r: Option<&ProjectConfiguration>)
        requires
            self.wf(),
        ensures
            r is Some <==> self.selected is Some,
            r matches Some(p) ==> *p == self.items@[self.selected->0 as int],
    {
        match self.selected {
            Some(i) => Some(&self.items[i]),
            None => None,
        }
    }

    /// React to a key; true where the picker is to close.
    pub fn on_key(&mut self, key: Key) -> (quit: bool)
        requires
            old(self).wf(),
        ensures
            final(self).wf(),
            final(self).items@ == old(self).items@,
            quit == (key == Key::Quit),
            old(self).mode == Mode::Normal ==> {
                &&& final(self).selected == match key {
                    Key::Down => next_of(old(self).selected, old(self).items@.len()),
                    Key::Up => previous_of(old(self).selected, old(self).items@.len()),
                    _ => old(self).selected,
                }
                &&& final(self).mode == if key == Key::Enter && old(self).selected is Some {
                    Mode::SettingUp
                } else {
                    Mode::Normal
                }
            },
            old(self).mode == Mode::SettingUp ==> {
                &&& final(self).selected == old(self).selected
                &&& final(self).mode == Mode::SettingUp
            },
    {
        if key == Key::Quit {
            return true;
        }
        match self.mode {
            Mode::Normal => match key {
                Key::Down => self.next(),
                Key::Up => self.previous(),
                Key::Enter => {
                    if self.selected.is_some() {
                        self.mode = Mode::SettingUp;
                    }
                },
                _ => {},
            },
            Mode::SettingUp => {},
        }
        false
    }
}

} // verus!
