//! The key dispatcher: what one key press does to the session and the meeting,
//! and the clock tick of the render loop.
use vstd::prelude::*;
use crate::meeting::{AttendeeView, Meeting, roster, with_attendee, without_attendee};
use crate::role::{Roles, role_order, ROLE_COUNT};

verus! {

/// Key that quits: `q`.
pub const KEY_QUIT: u8 = 0x71;

/// Key that saves the meeting: `s`.
pub const KEY_SAVE: u8 = 0x73;

/// Key that opens the add menu: `a`.
pub const KEY_ADD: u8 = 0x61;

/// Key that opens the remove menu: `r`.
pub const KEY_REMOVE: u8 = 0x72;

/// The digit key `1`, which picks a menu's first entry; each key after it in
/// byte order picks the next entry (`:` the tenth, `;` the eleventh, ...).
pub const KEY_ONE: u8 = 0x31;

/// Which screen the dashboard shows.
#[derive(Debug, Clone, Copy, PartialEq, Eq, Structural)]
pub enum Mode {
    /// The live cost display.
    Normal,
    /// The role menu: the next key picks the role of a new attendee.
    AddMenu,
    /// The roster menu: the next key picks the attendee to remove.
    RemoveMenu,
}

/// What the render loop has to do after a key press.
#[derive(Debug, Clone, Copy, PartialEq, Eq, Structural)]
pub enum Effect {
    /// Nothing.
    Nothing,
    /// Stop the loop.
    Quit,
    /// Store the meeting.
    Save,
    /// Clear the screen and show the add menu.
    ShowAddMenu,
    /// Clear the screen and show the remove menu.
    ShowRemoveMenu,
    /// Clear the screen so that the next tick repaints it whole.
    Repaint,
}

/// The state of the render loop besides the meeting: the screen shown and
/// whether the user asked to quit.
#[derive(Debug, Clone, Copy, PartialEq, Eq, Structural)]
pub struct Session {
    pub mode: Mode,
    pub exit: bool,
}

/// The menu position a key selects, counted from 0: `1` selects the first
/// entry, and each key after it in byte order the next one, so that the entry
/// numbered `n` is picked by the byte `'0' + n`. Keys before `1` select nothing.
pub open spec fn selected(key: u8) -> Option<int> {
    if KEY_ONE <= key {
        Some(key - KEY_ONE)
    } else {
        None
    }
}

/// The screen shown after `key` is pressed on screen `mode`.
pub open spec fn next_mode(mode: Mode, key: u8) -> Mode {
    match mode {
        Mode::Normal => if key == KEY_ADD {
            Mode::AddMenu
        } else if key == KEY_REMOVE {
            Mode::RemoveMenu
        } else {
            Mode::Normal
        },
        _ => Mode::Normal,
    }
}

/// What the loop does after `key` is pressed on screen `mode`.
pub open spec fn effect_of(mode: Mode, key: u8) -> Effect {
    match mode {
        Mode::Normal => if key == KEY_QUIT {
            Effect::Quit
        } else if key == KEY_SAVE {
            Effect::Save
        } else if key == KEY_ADD {
            Effect::ShowAddMenu
        } else if key == KEY_REMOVE {
            Effect::ShowRemoveMenu
        } else {
            Effect::Nothing
        },
        _ => Effect::Repaint,
    }
}

/// The roster after `key` is pressed on screen `mode`. In the add menu a key
/// from `1` to `6` appends an attendee of the role listed there; in the remove
/// menu the key of an entry's number removes the attendee listed there, if
/// there is one. Every other key leaves the roster as it is.
pub open spec fn roster_after(mode: Mode, key: u8, attendees: Seq<AttendeeView>) -> Seq<
    AttendeeView,
> {
    match (mode, selected(key)) {
        (Mode::AddMenu, Some(k)) => if k < ROLE_COUNT {
            with_attendee(attendees, role_order()[k])
        } else {
            attendees
        },
        (Mode::RemoveMenu, Some(k)) => without_attendee(attendees, k),
        _ => attendees,
    }
}

/// The elapsed time after one tick: one second more, unless a menu is open or
/// the counter is at its largest value.
pub open spec fn ticked(mode: Mode, seconds: int) -> int {
    if mode == Mode::Normal && seconds < i64::MAX {
        seconds + 1
    } else {
        seconds
    }
}

impl Session {
    /// A session on the live display that has not been asked to quit.
    pub fn new() -> (r: Session)
        ensures
            r.mode == Mode::Normal,
            !r.exit,
    {
        Session { mode: Mode::Normal, exit: false }
    }

    /// Whether the clock is stopped: it is while a menu is open.
    pub fn paused(&self) -> (r: bool)
        ensures
            r == (self.mode != Mode::Normal),
    {
        match self.mode {
            Mode::Normal => false,
            _ => true,
        }
    }

    /// Applies one key press: on the live display `q` asks to quit, `s` to
    /// save, `a` and `r` open the add and remove menus, and other keys do
    /// nothing; in a menu the key picks an entry or cancels, and the display
    /// returns.
    pub fn handle_key(&mut self, meeting: &mut Meeting, key: u8) -> (r: Effect)
        ensures
            r == effect_of(old(self).mode, key),
            final(self).mode == next_mode(old(self).mode, key),
            final(self).exit == (old(self).exit || (old(self).mode == Mode::Normal && key
                == KEY_QUIT)),
            final(meeting).id == old(meeting).id,
            final(meeting).name@ == old(meeting).name@,
            final(meeting).duration_seconds == old(meeting).duration_seconds,
            roster(final(meeting).attendees@) == roster_after(
                old(self).mode,
                key,
                roster(old(meeting).attendees@),
            ),
    {
        match self.mode {
            Mode::Normal => {
                if key == KEY_QUIT {
                    self.exit = true;
                    Effect::Quit
                } else if key == KEY_SAVE {
                    Effect::Save
                } else if key == KEY_ADD {
                    self.mode = Mode::AddMenu;
                    Effect::ShowAddMenu
                } else if key == KEY_REMOVE {
                    self.mode = Mode::RemoveMenu;
                    Effect::ShowRemoveMenu
                } else {
                    Effect::Nothing
                }
            },
            Mode::AddMenu => {
                if KEY_ONE <= key {
                    match Roles::at((key - KEY_ONE) as usize) {
                        Some(role) => meeting.add_attendee(role),
                        None => {},
                    }
                }
                self.mode = Mode::Normal;
                Effect::Repaint
            },
            Mode::RemoveMenu => {
                if KEY_ONE <= key {
                    let _ = meeting.remove_attendee((key - KEY_ONE) as usize);
                }
                self.mode = Mode::Normal;
                Effect::Repaint
            },
        }
    }

    /// One tick of the clock: the meeting's elapsed time grows by a second
    /// unless a menu is open.
    pub fn tick(&self, meeting: &mut Meeting)
        ensures
            final(meeting).duration_seconds == ticked(self.mode, old(meeting).duration_seconds as int),
            final(meeting).id == old(meeting).id,
            final(meeting).name@ == old(meeting).name@,
            final(meeting).attendees@ == old(meeting).attendees@,
    {
        if !self.paused() && meeting.duration_seconds < i64::MAX {
            meeting.duration_seconds = meeting.duration_seconds + 1;
        }
    }
}

/// Whether the terminal size changed between two polls; a change calls for a
/// full repaint.
pub fn resized(before: (u16, u16), now: (u16, u16)) -> (r: bool)
    ensures
        r == (before != now),
{
    before.0 != now.0 || before.1 != now.1
}

} // verus!
