//! A list with a selected position, as the options menu uses it.

use vstd::prelude::*;

verus! {

/// The selected position of a list, if any.
#[derive(Clone, Copy, Debug, PartialEq, Eq, Structural)]
pub struct ListState {
    pub selection: Option<usize>,
}

impl ListState {
    /// A state with nothing selected.
    pub fn new() -> (r: ListState)
        ensures
            r.selection is None,
    {
        ListState { selection: None }
    }

    /// Selects a position, or nothing.
    pub fn select(&mut self, index: Option<usize>)
        ensures
            final(self).selection == index,
    {
        self.selection = index;
    }

    /// The selected position, if any.
    pub fn selected(&self) -> (r: Option<usize>)
        ensures
            r == self.selection,
    {
        self.selection
    }
}

/// Items with a selected position among them.
#[derive(Debug)]
pub struct StatefulList<T> {
    pub items: Vec<T>,
    pub state: ListState,
}

impl<T> StatefulList<T> {
    /// A list of the items with the first selected.
    pub fn new(items: Vec<T>, state: ListState) -> (r: StatefulList<T>)
        ensures
            r.items@ == items@,
            r.state.selection == Some(0usize),
    {
        let mut state = state;
        state.select(Some(0));
        StatefulList { items, state }
    }

    /// A list of the items with the first selected.
    pub fn with_items(items: Vec<T>) -> (r: StatefulList<T>)
        ensures
            r.items@ == items@,
            r.state.selection == Some(0usize),
    {
        StatefulList::new(items, ListState::new())
    }

    /// The selected item, if there is one at the selected position.
    pub fn selected(&self) -> (r: Option<&T>)
        ensures
            r == (match self.state.selection {
                Some(i) => if i < self.items.len() {
                    Some(&self.items@[i as int])
                } else {
                    None
                },
                None => None,
            }),
    {
        match self.state.selected() {
            Some(i) => if i < self.items.len() {
                Some(&self.items[i])
            } else {
                None
            },
            None => None,
        }
    }

    /// Selects the next item, wrapping from the last to the first.
    pub fn next(&mut self)
        ensures
            final(self).items@ == old(self).items@,
            final(self).state.selection == Some(
                (match old(self).state.selection {
                    Some(i) => if i + 1 >= old(self).items.len() {
                        0
                    } else {
                        i + 1
                    },
                    None => 0,
                }) as usize,
            ),
    {
        let i: usize = match self.state.selected() {
            Some(i) => if i >= self.items.len() || i + 1 >= self.items.len() {
                0
            } else {
                i + 1
            },
            None => 0,
        };
        self.state.select(Some(i));
    }

    /// Selects the previous item, wrapping from the first to the last.
    pub fn previous(&mut self)
        ensures
            final(self).items@ == old(self).items@,
            final(self).state.selection == Some(
                (match old(self).state.selection {
                    Some(i) => if i == 0 {
                        if old(self).items.len() > 0 {
                            old(self).items.len() - 1
                        } else {
                            0
                        }
                    } else {
                        i - 1
                    },
                    None => 0,
                }) as usize,
            ),
    {
        let i: usize = match self.state.selected() {
            Some(i) => if i == 0 {
                if self.items.len() > 0 {
                    self.items.len() - 1
                } else {
                    0
                }
            } else {
                i - 1
            },
            None => 0,
        };
        self.state.select(Some(i));
    }
}

} // verus!
