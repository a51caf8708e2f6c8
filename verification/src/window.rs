//! The decisions of the launcher window: what a key press does, how the
//! window goes away, and whether the song panel has something to show.
use vstd::prelude::*;

use crate::consts::{
    KEY_DOWN_ARROW, KEY_ENTER, KEY_ESC, KEY_LEFT_SHIFT, KEY_RIGHT_SHIFT, KEY_TAB, KEY_UP_ARROW,
};

verus! {

/// What the window does about a key press.
#[derive(PartialEq, Eq, Structural, Clone, Copy, Debug)]
pub enum KeyAction {
    /// Select the entry at this position and scroll to it.
    Select(u32),
    /// Hide or close the window.
    Dismiss,
    /// Open the selected entry.
    OpenSelected,
    /// Switch to the other tab.
    SwitchTab,
    /// Move the focus to the search field when `grab_focus`, and append
    /// `typed` to the search when there is one.
    Type { grab_focus: bool, typed: Option<char> },
}

/// The position selected by the up arrow: one up, but not above the top.
pub open spec fn position_up(selected: u32) -> u32 {
    if selected > 0 {
        (selected - 1) as u32
    } else {
        0
    }
}

/// The position selected by the down arrow: one down, but not past the
/// last entry (the top when the list is empty).
pub open spec fn position_down(selected: u32, n_items: u32) -> u32 {
    if n_items > 0 {
        if (n_items - 1) as int <= selected + 1 {
            (n_items - 1) as u32
        } else {
            (selected + 1) as u32
        }
    } else {
        0
    }
}

/// What a key press does. `key_is_lower_and_upper` tells whether the key
/// is both a lower-case and an upper-case letter (a key without case, such
/// as a digit); `key_name` is the key's name.
pub open spec fn key_action_spec(
    keycode: u32,
    selected: u32,
    n_items: u32,
    key_is_lower_and_upper: bool,
    key_name: Option<Seq<char>>,
) -> KeyAction {
    if keycode == KEY_UP_ARROW {
        KeyAction::Select(position_up(selected))
    } else if keycode == KEY_DOWN_ARROW {
        KeyAction::Select(position_down(selected, n_items))
    } else if keycode == KEY_ESC {
        KeyAction::Dismiss
    } else if keycode == KEY_ENTER {
        KeyAction::OpenSelected
    } else if keycode == KEY_TAB {
        KeyAction::SwitchTab
    } else {
        KeyAction::Type {
            grab_focus: keycode != KEY_LEFT_SHIFT && keycode != KEY_RIGHT_SHIFT,
            typed: if !key_is_lower_and_upper {
                match key_name {
                    Some(n) => Some(n[0]),
                    None => None,
                }
            } else {
                None
            },
        }
    }
}

impl KeyAction {
    /// Whether the key press stops here (only when the window goes away).
    pub fn stops_propagation(&self) -> (b: bool)
        ensures
            b == (*self == KeyAction::Dismiss),
    {
        match self {
            KeyAction::Dismiss => true,
            _ => false,
        }
    }
}

/// What the window does about a key press, given the selected position and
/// the number of entries in the list.
pub fn key_action(
    keycode: u32,
    selected: u32,
    n_items: u32,
    key_is_lower_and_upper: bool,
    key_name: Option<&str>,
) -> (a: KeyAction)
    requires
        keycode == KEY_DOWN_ARROW && n_items > 0 ==> selected < u32::MAX,
        keycode != KEY_UP_ARROW && keycode != KEY_DOWN_ARROW && keycode != KEY_ESC && keycode
            != KEY_ENTER && keycode != KEY_TAB && !key_is_lower_and_upper && key_name is Some
            ==> key_name->0@.len() > 0,
    ensures
        a == key_action_spec(
            keycode,
            selected,
            n_items,
            key_is_lower_and_upper,
            match key_name {
                Some(n) => Some(n@),
                None => None,
            },
        ),
{
    if keycode == KEY_UP_ARROW {
        KeyAction::Select(if selected > 0 { selected - 1 } else { 0 })
    } else if keycode == KEY_DOWN_ARROW {
        let pos = if n_items > 0 {
            let last = n_items - 1;
            let next = selected + 1;
            if last <= next { last } else { next }
        } else {
            0
        };
        KeyAction::Select(pos)
    } else if keycode == KEY_ESC {
        KeyAction::Dismiss
    } else if keycode == KEY_ENTER {
        KeyAction::OpenSelected
    } else if keycode == KEY_TAB {
        KeyAction::SwitchTab
    } else {
        let grab_focus = keycode != KEY_LEFT_SHIFT && keycode != KEY_RIGHT_SHIFT;
        let typed = if !key_is_lower_and_upper {
            match key_name {
                Some(n) => Some(n.get_char(0)),
                None => None,
            }
        } else {
            None
        };
        KeyAction::Type { grab_focus, typed }
    }
}

/// The arrow keys keep the selection inside the list: from a position in a
/// non-empty list both lead to a position in the list, the up arrow never
/// moves down and the down arrow never moves up.
pub proof fn lemma_arrows_stay_in_list(selected: u32, n_items: u32)
    requires
        selected < n_items,
    ensures
        position_up(selected) < n_items,
        position_down(selected, n_items) < n_items,
        position_up(selected) <= selected,
        position_down(selected, n_items) >= selected,
        selected + 1 < n_items ==> position_up(position_down(selected, n_items)) == selected,
{
}

/// How the window goes away.
#[derive(PartialEq, Eq, Structural, Clone, Copy, Debug)]
pub enum Dismissal {
    /// Hide it, to show it again later.
    Hide,
    /// Close it, ending the application.
    Close,
}

/// A window that belongs to the daemon is hidden; a standalone window is
/// closed.
pub fn hide_or_close(is_daemon: bool) -> (d: Dismissal)
    ensures
        d == (if is_daemon {
            Dismissal::Hide
        } else {
            Dismissal::Close
        }),
{
    if is_daemon {
        Dismissal::Hide
    } else {
        Dismissal::Close
    }
}

/// The labels of the song panel: the title and the artist when both are
/// known; nothing (the panel is hidden) otherwise.
pub fn set_song_data(title: Option<String>, artist: Option<String>) -> (r: Option<(String, String)>)
    ensures
        r is Some <==> (title is Some && artist is Some),
        r is Some ==> r == Some((title->0, artist->0)),
{
    match (title, artist) {
        (Some(t), Some(a)) => Some((t, a)),
        _ => None,
    }
}

} // verus!
