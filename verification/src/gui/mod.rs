//! The terminal interface's model and what it decides.
use vstd::prelude::*;

use crate::gui::app::App;
use crate::gui::util::{next_index, previous_index, spec_next, spec_previous, Logged, Pull};

pub mod app;
pub mod block;
pub mod sync;
pub mod thread_menu;
pub mod util;

verus! {

/// A key, as far as the interface tells keys apart.
#[derive(Debug, Clone, Copy, PartialEq, Eq, Structural)]
pub enum Key {
    Char(char),
    Left,
    Right,
    Up,
    Down,
    Other,
}

/// What the interface's event source delivers: a key press, or a tick of
/// its clock.
#[derive(Debug, Clone, Copy, PartialEq, Eq, Structural)]
pub enum Event {
    Input(Key),
    Tick,
}

/// The number of log lines of the selected thread; 0 when none is selected.
pub open spec fn selected_log_len<T: Logged>(app: App<T>) -> nat {
    match app.items.selected {
        Some(i) => if i < app.items.items@.len() {
            app.items.items@[i as int].log_len()
        } else {
            0
        },
        None => 0,
    }
}

/// Whether the key or tick can be handled without an arithmetic underflow:
/// moving a selection down from an entry, or up from the first entry, needs
/// a list that is not empty. In the log, which is shown newest first, the
/// down key moves up the list and the up and right keys move down it.
pub open spec fn key_in_range<T: Logged>(event: Event, app: App<T>) -> bool {
    let log_len = selected_log_len(app);
    match event {
        Event::Input(Key::Down) => if app.menu_in_focus {
            app.items.selected is Some ==> app.items.items@.len() > 0
        } else {
            app.log_selected == Some(0usize) ==> log_len > 0
        },
        Event::Input(Key::Up) => if app.menu_in_focus {
            app.items.selected == Some(0usize) ==> app.items.items@.len() > 0
        } else {
            app.log_selected is Some ==> log_len > 0
        },
        Event::Input(Key::Right) => app.menu_in_focus ==> (app.log_selected is Some ==> log_len > 0),
        _ => true,
    }
}

/// Answers one event; returns whether the interface is to close. "q" and
/// "`" close it. With the thread menu in focus, left clears its selection,
/// down and up move it (wrapping around) and clear the log selection, and
/// right hands the focus to the log, moving its selection down. With the log
/// in focus, left hands the focus back to the menu and clears the log
/// selection, and down and up move the log selection up and down. On a tick
/// all entries take in what is waiting for them; anything else changes
/// nothing.
pub fn handle_key_event<T: Pull + Logged>(event: Event, app: &mut App<T>) -> (close_app: bool)
    requires
        key_in_range(event, *old(app)),
    ensures
        close_app == (event == Event::Input(Key::Char('q')) || event == Event::Input(Key::Char('`'))),
        match event {
            Event::Input(Key::Left) => final(app).items.items@ == old(app).items.items@ && if old(
                app,
            ).menu_in_focus {
                &&& final(app).items.selected is None
                &&& final(app).menu_in_focus
                &&& final(app).log_selected == old(app).log_selected
            } else {
                &&& final(app).items.selected == old(app).items.selected
                &&& final(app).menu_in_focus
                &&& final(app).log_selected is None
            },
            Event::Input(Key::Right) => final(app).items.items@ == old(app).items.items@
                && final(app).items.selected == old(app).items.selected && if old(app).menu_in_focus {
                &&& !final(app).menu_in_focus
                &&& final(app).log_selected == spec_next(old(app).log_selected, selected_log_len(*old(app)))
            } else {
                &&& !final(app).menu_in_focus
                &&& final(app).log_selected == old(app).log_selected
            },
            Event::Input(Key::Down) => final(app).items.items@ == old(app).items.items@
                && final(app).menu_in_focus == old(app).menu_in_focus && if old(app).menu_in_focus {
                &&& final(app).items.selected == spec_next(old(app).items.selected, old(app).items.items@.len())
                &&& final(app).log_selected is None
            } else {
                &&& final(app).items.selected == old(app).items.selected
                &&& final(app).log_selected == spec_previous(old(app).log_selected, selected_log_len(*old(app)))
            },
            Event::Input(Key::Up) => final(app).items.items@ == old(app).items.items@
                && final(app).menu_in_focus == old(app).menu_in_focus && if old(app).menu_in_focus {
                &&& final(app).items.selected == spec_previous(old(app).items.selected, old(app).items.items@.len())
                &&& final(app).log_selected is None
            } else {
                &&& final(app).items.selected == old(app).items.selected
                &&& final(app).log_selected == spec_next(old(app).log_selected, selected_log_len(*old(app)))
            },
            Event::Tick => {
                &&& final(app).items.selected == old(app).items.selected
                &&& final(app).menu_in_focus == old(app).menu_in_focus
                &&& final(app).log_selected == old(app).log_selected
                &&& final(app).items.items@.len() == old(app).items.items@.len()
                &&& forall|k: int|
                    0 <= k < old(app).items.items@.len() ==> (#[trigger] final(app).items.items@[k]).pulled_from(
                        &old(app).items.items@[k],
                    )
            },
            _ => *final(app) == *old(app),
        },
{
    let mut close_app = false;
    match event {
        Event::Input(input) => match input {
            Key::Char(c) => {
                if c == 'q' || c == '`' {
                    close_app = true;
                }
            },
            Key::Left => {
                if app.menu_in_focus {
                    app.items.unselect();
                } else {
                    app.menu_in_focus = true;
                    app.log_selected = None;
                }
            },
            Key::Right => {
                if app.menu_in_focus {
                    let n = selected_log_count(app);
                    app.log_selected = next_index(app.log_selected, n);
                    app.menu_in_focus = false;
                }
            },
            Key::Down => {
                if app.menu_in_focus {
                    app.items.next();
                    app.log_selected = None;
                } else {
                    let n = selected_log_count(app);
                    app.log_selected = previous_index(app.log_selected, n);
                }
            },
            Key::Up => {
                if app.menu_in_focus {
                    app.items.previous();
                    app.log_selected = None;
                } else {
                    let n = selected_log_count(app);
                    app.log_selected = next_index(app.log_selected, n);
                }
            },
            _ => {},
        },
        Event::Tick => {
            app.tick();
        },
    }
    close_app
}

/// Whether `handle_key_event` can be asked to answer the event
/// (`key_in_range`).
pub fn key_fits<T: Logged>(event: Event, app: &App<T>) -> (r: bool)
    ensures
        r == key_in_range(event, *app),
{
    let log_len = selected_log_count(app);
    match event {
        Event::Input(Key::Down) => if app.menu_in_focus {
            app.items.selected.is_none() || app.items.items.len() > 0
        } else {
            !matches!(app.log_selected, Some(0)) || log_len > 0
        },
        Event::Input(Key::Up) => if app.menu_in_focus {
            !matches!(app.items.selected, Some(0)) || app.items.items.len() > 0
        } else {
            app.log_selected.is_none() || log_len > 0
        },
        Event::Input(Key::Right) => !app.menu_in_focus || app.log_selected.is_none() || log_len > 0,
        _ => true,
    }
}

/// The number of log lines of the selected thread (`selected_log_len`).
fn selected_log_count<T: Logged>(app: &App<T>) -> (r: usize)
    ensures
        r == selected_log_len(*app),
{
    match app.items.selected {
        Some(i) => if i < app.items.items.len() {
            app.items.items[i].log_count()
        } else {
            0
        },
        None => 0,
    }
}

} // verus!
