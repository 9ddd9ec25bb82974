//! The state of the dashboard's screen and what a key does to it.

use vstd::prelude::*;

verus! {

/// What the screen's loop waits for: a key, or the passing of time.
#[derive(Debug, PartialEq, Eq)]
pub enum Event<T> {
    Input(T),
    Tick,
}

/// What the screen's loop does after an event.
#[derive(Clone, Copy, Debug, PartialEq, Eq, Structural)]
pub enum HandleEventMsg {
    Continue,
    Exit,
}

/// The views between which the screen switches.
#[derive(Clone, Copy, Debug, PartialEq, Eq, Structural)]
pub enum Views {
    Main,
    Workflows,
}

impl Views {
    /// The view after this one; after the last comes the first.
    pub open spec fn following(self) -> Views {
        match self {
            Views::Main => Views::Workflows,
            Views::Workflows => Views::Main,
        }
    }

    /// The view after this one; after the last comes the first.
    pub fn next(&self) -> (r: Views)
        ensures
            r == self.following(),
    {
        match self {
            Views::Main => Views::Workflows,
            Views::Workflows => Views::Main,
        }
    }

    /// The name of the view as the screen shows it.
    pub fn label(&self) -> (r: String)
        ensures
            r@ == match self {
                Views::Main => "Main"@,
                Views::Workflows => "Workflows"@,
            },
    {
        match self {
            Views::Main => String::from_str("Main"),
            Views::Workflows => String::from_str("Workflows"),
        }
    }
}

/// A key, as far as the screen tells keys apart.
#[derive(Clone, Copy, Debug, PartialEq, Eq, Structural)]
pub enum Key {
    Char(char),
    Tab,
    Other,
}

/// The colour of a view's border.
#[derive(Clone, Copy, Debug, PartialEq, Eq, Structural)]
pub enum BorderColour {
    LightRed,
    Gray,
}

/// A list of which at most one item is selected.
#[derive(Debug, PartialEq, Eq)]
pub struct StatefulList<T> {
    pub selected: Option<usize>,
    pub items: Vec<T>,
}

/// The place that is selected after a step forward in a list of `len`
/// items: the first after the last, and the first where none was selected.
pub open spec fn place_after(selected: Option<usize>, len: nat) -> usize {
    match selected {
        Some(i) => if len == 0 || i >= len - 1 {
            0
        } else {
            (i + 1) as usize
        },
        None => 0,
    }
}

/// The place that is selected after a step back in a list of `len` items:
/// the last before the first, and the first where none was selected or the
/// list is empty.
pub open spec fn place_before(selected: Option<usize>, len: nat) -> usize {
    match selected {
        Some(i) => if i == 0 {
            if len == 0 {
                0
            } else {
                (len - 1) as usize
            }
        } else {
            (i - 1) as usize
        },
        None => 0,
    }
}

impl<T> StatefulList<T> {
    /// A list of these items, none selected.
    pub fn with_items(items: Vec<T>) -> (r: Self)
        ensures
            r.selected is None,
            r.items == items,
    {
        StatefulList { selected: None, items }
    }

    /// Selects the item after the selected one.
    pub fn next(&mut self)
        ensures
            final(self).items == old(self).items,
            final(self).selected == Some(place_after(old(self).selected, old(self).items@.len())),
    {
        let i: usize = match self.selected {
            Some(i) => {
                if self.items.len() == 0 || i >= self.items.len() - 1 {
                    0
                } else {
                    i + 1
                }
            },
            None => 0,
        };
        self.selected = Some(i);
    }

    /// Selects the item before the selected one.
    pub fn previous(&mut self)
        ensures
            final(self).items == old(self).items,
            final(self).selected == Some(place_before(old(self).selected, old(self).items@.len())),
    {
        let i: usize = match self.selected {
            Some(i) => {
                if i == 0 {
                    if self.items.len() == 0 {
                        0
                    } else {
                        self.items.len() - 1
                    }
                } else {
                    i - 1
                }
            },
            None => 0,
        };
        self.selected = Some(i);
    }

    /// Selects no item.
    pub fn unselect(&mut self)
        ensures
            final(self).items == old(self).items,
            final(self).selected is None,
    {
        self.selected = None;
    }
}

/// In a list that is not empty, with an item of it selected, a step forward
/// and a step back select items of the list, and each undoes the other.
pub proof fn lemma_steps_stay_and_undo(selected: usize, len: nat)
    requires
        selected < len,
        len <= usize::MAX,
    ensures
        place_after(Some(selected), len) < len,
        place_before(Some(selected), len) < len,
        place_before(Some(place_after(Some(selected), len)), len) == selected,
        place_after(Some(place_before(Some(selected), len)), len) == selected,
{
}

/// The state of the screen.
#[derive(Debug, PartialEq, Eq)]
pub struct App {
    pub view_state: Views,
    pub workflows_items: StatefulList<(String, String)>,
}

impl App {
    /// The screen at its start: the main view, and these items to show.
    pub fn new(items: Vec<(String, String)>) -> (r: App)
        ensures
            r.view_state == Views::Main,
            r.workflows_items.selected is None,
            r.workflows_items.items == items,
    {
        App { view_state: Views::Main, workflows_items: StatefulList::with_items(items) }
    }

    /// What an event does: `q` ends the loop, the tabulator switches to the
    /// next view, and every other key, like the passing of time, does
    /// nothing.
    pub fn handle_event(&mut self, event: Event<Key>) -> (r: HandleEventMsg)
        ensures
            final(self).workflows_items == old(self).workflows_items,
            final(self).view_state == if event == Event::Input(Key::Tab) {
                old(self).view_state.following()
            } else {
                old(self).view_state
            },
            r == if event == Event::Input(Key::Char('q')) {
                HandleEventMsg::Exit
            } else {
                HandleEventMsg::Continue
            },
    {
        match event {
            Event::Input(key) => match key {
                Key::Char(c) => if c == 'q' {
                    HandleEventMsg::Exit
                } else {
                    HandleEventMsg::Continue
                },
                Key::Tab => {
                    self.view_state = self.view_state.next();
                    HandleEventMsg::Continue
                },
                Key::Other => HandleEventMsg::Continue,
            },
            Event::Tick => HandleEventMsg::Continue,
        }
    }

    /// The colour of the border of `this_view` while `view_state` is shown:
    /// light red for the view that is shown, gray for the other.
    pub fn border_colour(view_state: &Views, this_view: &Views) -> (r: BorderColour)
        ensures
            r == if *view_state == *this_view {
                BorderColour::LightRed
            } else {
                BorderColour::Gray
            },
    {
        match view_state {
            Views::Main => match this_view {
                Views::Main => BorderColour::LightRed,
                Views::Workflows => BorderColour::Gray,
            },
            Views::Workflows => match this_view {
                Views::Main => BorderColour::Gray,
                Views::Workflows => BorderColour::LightRed,
            },
        }
    }
}

} // verus!
