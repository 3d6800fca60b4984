//! What each key does to the session, and what the screen shows of it.
use vstd::prelude::*;
use vstd::string::*;
use crate::text::{blank, trimmed};
use crate::session::{moved, Move, Phase, SessionState, CUSTOM, LAST_VARIANT, RELEASE};

verus! {

/// A key press, as far as the session cares.
#[derive(Clone, Copy, Debug, PartialEq, Eq, Structural)]
pub enum Key {
    Up,
    Down,
    Enter,
    Backspace,
    Char(char),
    Other,
}

/// What the caller does after a key.
#[derive(Clone, Copy, Debug, PartialEq, Eq, Structural)]
pub enum Reply {
    /// Redraw and wait for the next key.
    Redraw,
    /// Add this character to the typed address.
    Type(char),
    /// Drop the last character of the typed address.
    Erase,
    /// Empty the typed address (it was refused).
    ClearInput,
    /// Launch the provisioning process.
    StartInstall,
    /// End the program.
    Quit,
}

/// The key that ends the program while selecting.
pub const QUIT_KEY: char = 'q';

impl SessionState {
    /// Applies one key. `typed` is the address typed so far at the prompt.
    pub fn on_key(&mut self, key: Key, typed: &str) -> (r: Reply)
        requires
            old(self).wf(),
        ensures
            final(self).wf(),
            old(self).phase == Phase::Selecting ==> match key {
                Key::Up => {
                    &&& final(self).selected == moved(old(self).selected as nat, Move::Up)
                    &&& final(self).phase == old(self).phase
                    &&& final(self).model_choice == old(self).model_choice
                    &&& final(self).custom_url == old(self).custom_url
                    &&& final(self).current_step == old(self).current_step
                    &&& r == Reply::Redraw
                },
                Key::Down => {
                    &&& final(self).selected == moved(old(self).selected as nat, Move::Down)
                    &&& final(self).phase == old(self).phase
                    &&& final(self).model_choice == old(self).model_choice
                    &&& final(self).custom_url == old(self).custom_url
                    &&& final(self).current_step == old(self).current_step
                    &&& r == Reply::Redraw
                },
                Key::Enter => {
                    &&& final(self).model_choice == old(self).selected
                    &&& final(self).selected == old(self).selected
                    &&& final(self).custom_url == old(self).custom_url
                    &&& final(self).current_step == old(self).current_step
                    &&& if old(self).selected == CUSTOM && old(self).custom_url@.len() == 0 {
                        final(self).phase == Phase::AwaitingCustomInput && r == Reply::Redraw
                    } else {
                        final(self).phase == Phase::Installing && r == Reply::StartInstall
                    }
                },
                Key::Char(c) => *final(self) == *old(self) && r == (if c == QUIT_KEY {
                    Reply::Quit
                } else {
                    Reply::Redraw
                }),
                _ => *final(self) == *old(self) && r == Reply::Redraw,
            },
            old(self).phase == Phase::AwaitingCustomInput ==> match key {
                Key::Enter => if blank(typed@) {
                    *final(self) == *old(self) && r == Reply::ClearInput
                } else {
                    &&& final(self).phase == Phase::Installing
                    &&& trimmed(typed@, final(self).custom_url@)
                    &&& final(self).selected == old(self).selected
                    &&& final(self).model_choice == old(self).model_choice
                    &&& final(self).current_step == old(self).current_step
                    &&& r == Reply::StartInstall
                },
                Key::Char(c) => *final(self) == *old(self) && r == Reply::Type(c),
                Key::Backspace => *final(self) == *old(self) && r == Reply::Erase,
                _ => *final(self) == *old(self) && r == Reply::Redraw,
            },
            (old(self).phase != Phase::Selecting && old(self).phase
                != Phase::AwaitingCustomInput) ==> *final(self) == *old(self) && r
                == Reply::Redraw,
    {
        match self.phase {
            Phase::Selecting => match key {
                Key::Up => {
                    self.navigate(Move::Up);
                    Reply::Redraw
                },
                Key::Down => {
                    self.navigate(Move::Down);
                    Reply::Redraw
                },
                Key::Enter => {
                    self.confirm();
                    if self.phase == Phase::Installing {
                        Reply::StartInstall
                    } else {
                        Reply::Redraw
                    }
                },
                Key::Char(c) => {
                    if c == QUIT_KEY && self.quit() {
                        Reply::Quit
                    } else {
                        Reply::Redraw
                    }
                },
                _ => Reply::Redraw,
            },
            Phase::AwaitingCustomInput => match key {
                Key::Enter => {
                    self.submit_custom_url(typed);
                    if self.phase == Phase::Installing {
                        Reply::StartInstall
                    } else {
                        Reply::ClearInput
                    }
                },
                Key::Char(c) => Reply::Type(c),
                Key::Backspace => Reply::Erase,
                _ => Reply::Redraw,
            },
            _ => Reply::Redraw,
        }
    }
}

/// Label of a variant in the menu.
pub open spec fn label_of(i: usize) -> Seq<char> {
    if i == CUSTOM {
        "Custom (Enter Tag)"@
    } else if i == RELEASE {
        "Release v1.0"@
    } else {
        "Latest (Master)"@
    }
}

/// The menu label of variant `i`.
pub fn variant_label(i: usize) -> (r: &'static str)
    requires
        i <= LAST_VARIANT,
    ensures
        r@ == label_of(i),
{
    if i == CUSTOM {
        "Custom (Enter Tag)"
    } else if i == RELEASE {
        "Release v1.0"
    } else {
        "Latest (Master)"
    }
}

/// Title of the status panel in each phase.
pub open spec fn title_of(p: Phase) -> Seq<char> {
    match p {
        Phase::Selecting => "Keys"@,
        Phase::AwaitingCustomInput => "Enter URL"@,
        Phase::Installing => "Progress"@,
        Phase::Failed => "Error"@,
        Phase::Done => "Done"@,
    }
}

/// Text of the status panel: the keys while selecting, the typed address at
/// the prompt, the last message otherwise.
pub open spec fn body_of(s: SessionState, typed: Seq<char>) -> Seq<char> {
    match s.phase {
        Phase::Selecting => "Up/Down: choose  Enter: install  q: quit"@,
        Phase::AwaitingCustomInput => typed,
        _ => s.current_step@,
    }
}

impl SessionState {
    /// Title of the status panel.
    pub fn status_title(&self) -> (r: &'static str)
        ensures
            r@ == title_of(self.phase),
    {
        match self.phase {
            Phase::Selecting => "Keys",
            Phase::AwaitingCustomInput => "Enter URL",
            Phase::Installing => "Progress",
            Phase::Failed => "Error",
            Phase::Done => "Done",
        }
    }

    /// Text of the status panel.
    pub fn status_body(&self, typed: &str) -> (r: String)
        ensures
            r@ == body_of(*self, typed@),
    {
        match self.phase {
            Phase::Selecting => String::from_str("Up/Down: choose  Enter: install  q: quit"),
            Phase::AwaitingCustomInput => String::from_str(typed),
            _ => self.current_step.clone(),
        }
    }
}

} // verus!
