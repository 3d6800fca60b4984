//! The install session: which variant is selected, which phase the run is
//! in, and the last message the provisioning process reported.
use vstd::prelude::*;
use vstd::string::*;
use crate::text::{blank, trimmed, trim, signed_decimal, signed_decimal_string};

verus! {

/// Index of the latest development variant.
pub const LATEST: usize = 0;

/// Index of the fixed release variant.
pub const RELEASE: usize = 1;

/// Index of the custom variant.
pub const CUSTOM: usize = 2;

/// Largest variant index.
pub const LAST_VARIANT: usize = 2;

/// Phase of the run.
#[derive(Clone, Copy, Debug, PartialEq, Eq, Structural)]
pub enum Phase {
    Selecting,
    AwaitingCustomInput,
    Installing,
    Failed,
    Done,
}

/// A navigation key.
#[derive(Clone, Copy, Debug, PartialEq, Eq, Structural)]
pub enum Move {
    Up,
    Down,
}

/// The selection after one move: one step, clamped to the variant range.
pub open spec fn moved(selected: nat, m: Move) -> nat {
    match m {
        Move::Up => if selected == 0 {
            0
        } else {
            (selected - 1) as nat
        },
        Move::Down => if selected >= LAST_VARIANT {
            LAST_VARIANT as nat
        } else {
            selected + 1
        },
    }
}

/// The selection after a sequence of moves from `start`.
pub open spec fn navigated(start: nat, moves: Seq<Move>) -> nat
    decreases moves.len(),
{
    if moves.len() == 0 {
        start
    } else {
        moved(navigated(start, moves.drop_last()), moves.last())
    }
}

/// Whatever the moves, the selection stays within the variant range and each
/// move shifts it by at most one.
pub proof fn navigation_stays_in_range(start: nat, moves: Seq<Move>)
    requires
        start <= LAST_VARIANT,
    ensures
        forall|i: int|
            0 <= i <= moves.len() ==> #[trigger] navigated(start, moves.take(i)) <= LAST_VARIANT,
        forall|i: int|
            0 <= i < moves.len() ==> {
                let before = navigated(start, moves.take(i)) as int;
                let after = #[trigger] navigated(start, moves.take(i + 1)) as int;
                -1 <= after - before <= 1
            },
    decreases moves.len(),
{
    if moves.len() > 0 {
        let prefix = moves.drop_last();
        navigation_stays_in_range(start, prefix);
        assert forall|i: int| 0 <= i <= moves.len() implies #[trigger] navigated(
            start,
            moves.take(i),
        ) <= LAST_VARIANT by {
            if i < moves.len() {
                assert(moves.take(i) =~= prefix.take(i));
            } else {
                assert(moves.take(i) =~= moves);
                assert(navigated(start, prefix) <= LAST_VARIANT) by {
                    assert(prefix.take(prefix.len() as int) =~= prefix);
                }
            }
        }
        assert forall|i: int| 0 <= i < moves.len() implies {
            let before = navigated(start, moves.take(i)) as int;
            let after = #[trigger] navigated(start, moves.take(i + 1)) as int;
            -1 <= after - before <= 1
        } by {
            if i + 1 < moves.len() {
                assert(moves.take(i) =~= prefix.take(i));
                assert(moves.take(i + 1) =~= prefix.take(i + 1));
            } else {
                assert(moves.take(i) =~= prefix);
                assert(moves.take(i + 1) =~= moves);
            }
        }
    }
}

/// The message left in the session when the process exits with `code` and
/// reported no error itself.
pub open spec fn exit_text(code: int) -> Seq<char> {
    "process exited with code "@ + signed_decimal(code)
}

/// `b` is `a` after a progress report `m`: shown while installing, else ignored.
pub open spec fn progressed(a: SessionState, b: SessionState, m: Seq<char>) -> bool {
    if a.phase == Phase::Installing {
        &&& b.current_step@ == m
        &&& b.phase == Phase::Installing
        &&& b.selected == a.selected
        &&& b.model_choice == a.model_choice
        &&& b.custom_url == a.custom_url
    } else {
        b == a
    }
}

/// `b` is `a` after a failure report `m`: shown, and the run failed, while
/// installing; else ignored.
pub open spec fn errored(a: SessionState, b: SessionState, m: Seq<char>) -> bool {
    if a.phase == Phase::Installing {
        &&& b.current_step@ == m
        &&& b.phase == Phase::Failed
        &&& b.selected == a.selected
        &&& b.model_choice == a.model_choice
        &&& b.custom_url == a.custom_url
    } else {
        b == a
    }
}

/// `b` is `a` after the process exited with `code`, while installing; else
/// `a` unchanged.
pub open spec fn exited(a: SessionState, b: SessionState, code: int) -> bool {
    if a.phase == Phase::Installing {
        &&& code == 0 ==> b.phase == Phase::Done && b.current_step == a.current_step
        &&& code != 0 ==> b.phase == Phase::Failed && b.current_step@ == exit_text(code)
        &&& b.selected == a.selected
        &&& b.model_choice == a.model_choice
        &&& b.custom_url == a.custom_url
    } else {
        b == a
    }
}

/// The whole state of one run of the installer.
pub struct SessionState {
    /// Variant under the cursor.
    pub selected: usize,
    /// Phase of the run.
    pub phase: Phase,
    /// Variant chosen when the install was confirmed.
    pub model_choice: usize,
    /// Model address typed in for the custom variant; empty otherwise.
    pub custom_url: String,
    /// Last progress or error message.
    pub current_step: String,
}

impl SessionState {
    /// Indices stay within the variant range.
    pub open spec fn wf(&self) -> bool {
        self.selected <= LAST_VARIANT && self.model_choice <= LAST_VARIANT
    }

    /// A fresh session: first variant selected, nothing reported yet.
    pub fn new() -> (r: SessionState)
        ensures
            r.wf(),
            r.selected == LATEST,
            r.phase == Phase::Selecting,
            r.model_choice == LATEST,
            r.custom_url@ == Seq::<char>::empty(),
            r.current_step@ == Seq::<char>::empty(),
    {
        SessionState {
            selected: LATEST,
            phase: Phase::Selecting,
            model_choice: LATEST,
            custom_url: String::new(),
            current_step: String::new(),
        }
    }

    /// Moves the selection by one, clamped at both ends; does nothing
    /// outside the selecting phase.
    pub fn navigate(&mut self, m: Move)
        requires
            old(self).wf(),
        ensures
            final(self).wf(),
            old(self).phase == Phase::Selecting ==> final(self).selected == moved(
                old(self).selected as nat,
                m,
            ),
            old(self).phase != Phase::Selecting ==> final(self).selected == old(self).selected,
            final(self).phase == old(self).phase,
            final(self).model_choice == old(self).model_choice,
            final(self).custom_url == old(self).custom_url,
            final(self).current_step == old(self).current_step,
    {
        if self.phase != Phase::Selecting {
            return;
        }
        match m {
            Move::Up => {
                if self.selected > 0 {
                    self.selected = self.selected - 1;
                }
            },
            Move::Down => {
                if self.selected < LAST_VARIANT {
                    self.selected = self.selected + 1;
                }
            },
        }
    }

    /// Confirms the selection: the custom variant without an address asks for
    /// one, any other choice starts the install. Does nothing outside the
    /// selecting phase.
    pub fn confirm(&mut self)
        requires
            old(self).wf(),
        ensures
            final(self).wf(),
            old(self).phase != Phase::Selecting ==> *final(self) == *old(self),
            old(self).phase == Phase::Selecting ==> {
                &&& final(self).model_choice == old(self).selected
                &&& final(self).phase == (if old(self).selected == CUSTOM
                    && old(self).custom_url@.len() == 0 {
                    Phase::AwaitingCustomInput
                } else {
                    Phase::Installing
                })
                &&& final(self).selected == old(self).selected
                &&& final(self).custom_url == old(self).custom_url
                &&& final(self).current_step == old(self).current_step
            },
    {
        if self.phase != Phase::Selecting {
            return;
        }
        self.model_choice = self.selected;
        if self.selected == CUSTOM && self.custom_url.as_str().unicode_len() == 0 {
            self.phase = Phase::AwaitingCustomInput;
        } else {
            self.phase = Phase::Installing;
        }
    }

    /// Takes the typed model address: text that is all whitespace is refused
    /// and the prompt stays; otherwise the address, trimmed, is kept and the
    /// install starts. Does nothing outside the prompt.
    pub fn submit_custom_url(&mut self, text: &str)
        requires
            old(self).wf(),
        ensures
            final(self).wf(),
            (old(self).phase != Phase::AwaitingCustomInput || blank(text@)) ==> *final(self)
                == *old(self),
            (old(self).phase == Phase::AwaitingCustomInput && !blank(text@)) ==> {
                &&& final(self).phase == Phase::Installing
                &&& trimmed(text@, final(self).custom_url@)
                &&& final(self).selected == old(self).selected
                &&& final(self).model_choice == old(self).model_choice
                &&& final(self).current_step == old(self).current_step
            },
    {
        if self.phase != Phase::AwaitingCustomInput {
            return;
        }
        match trim(text) {
            None => {},
            Some(url) => {
                self.custom_url = url;
                self.phase = Phase::Installing;
            },
        }
    }

    /// A progress report: replaces the shown message while installing.
    pub fn on_progress(&mut self, message: &str)
        requires
            old(self).wf(),
        ensures
            final(self).wf(),
            progressed(*old(self), *final(self), message@),
    {
        if self.phase == Phase::Installing {
            self.current_step = String::from_str(message);
        }
    }

    /// A failure report: shows the message and fails the run while installing.
    pub fn on_error(&mut self, message: &str)
        requires
            old(self).wf(),
        ensures
            final(self).wf(),
            errored(*old(self), *final(self), message@),
    {
        if self.phase == Phase::Installing {
            self.current_step = String::from_str(message);
            self.phase = Phase::Failed;
        }
    }

    /// The process's exit status: zero finishes the run, any other code fails
    /// it with a message that names the code. After an error report, and in
    /// any phase but installing, it does nothing.
    pub fn on_exit(&mut self, code: i32)
        requires
            old(self).wf(),
        ensures
            final(self).wf(),
            exited(*old(self), *final(self), code as int),
    {
        if self.phase != Phase::Installing {
            return;
        }
        if code == 0 {
            self.phase = Phase::Done;
        } else {
            let number = signed_decimal_string(code);
            self.current_step = String::from_str("process exited with code ").concat(
                number.as_str(),
            );
            self.phase = Phase::Failed;
        }
    }

    /// Whether the quit key ends the program now: only while selecting.
    pub fn quit(&self) -> (r: bool)
        ensures
            r == (self.phase == Phase::Selecting),
    {
        self.phase == Phase::Selecting
    }
}

} // verus!
