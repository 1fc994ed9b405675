//! The yes / no / always / never questions asked when a file or a whole
//! session has saved state to restore.

use vstd::prelude::*;
use crate::key::KeyResult;

verus! {

/// The configured confirm key a press matches, in the order they are tried.
#[derive(Debug, Clone, Copy, PartialEq, Eq, Structural)]
pub enum ConfirmBinding {
    Yes,
    No,
    Always,
    Never,
}

/// What to do with a file's saved state.
#[derive(Debug)]
pub enum RestoreStep<C> {
    /// Still asking.
    Ask(ConfirmRestoreMode<C>),
    /// Apply the saved state (and, when `always`, remember to do so
    /// without asking), then go to normal mode.
    Apply { context: C, always: bool },
    /// Start clean: clear the filters and comments, then go to normal mode.
    Discard,
}

/// Asking whether to restore a file's previous state `context`.
#[derive(Debug)]
pub struct ConfirmRestoreMode<C> {
    pub context: C,
}

impl<C> ConfirmRestoreMode<C> {
    /// Handles one key (`bound` is the first confirm key the press
    /// matches). The result is `Handled`, except `NeverRestoreFile` for
    /// never.
    pub fn handle_key(self, bound: Option<ConfirmBinding>) -> (r: (RestoreStep<C>, KeyResult))
        ensures
            match bound {
                Some(ConfirmBinding::Yes) => r.1 is Handled && (r.0 matches RestoreStep::Apply { context, always }
                    && context == self.context && !always),
                Some(ConfirmBinding::Always) => r.1 is Handled && (r.0 matches RestoreStep::Apply { context, always }
                    && context == self.context && always),
                Some(ConfirmBinding::No) => r.1 is Handled && r.0 is Discard,
                Some(ConfirmBinding::Never) => r.1 is NeverRestoreFile && r.0 is Discard,
                None => r.1 is Handled && (r.0 matches RestoreStep::Ask(m) && m.context == self.context),
            },
    {
        match bound {
            Some(ConfirmBinding::Yes) => (RestoreStep::Apply { context: self.context, always: false }, KeyResult::Handled),
            Some(ConfirmBinding::Always) => (RestoreStep::Apply { context: self.context, always: true }, KeyResult::Handled),
            Some(ConfirmBinding::No) => (RestoreStep::Discard, KeyResult::Handled),
            Some(ConfirmBinding::Never) => (RestoreStep::Discard, KeyResult::NeverRestoreFile),
            None => (RestoreStep::Ask(self), KeyResult::Handled),
        }
    }
}

/// Asking whether to reopen the files of the last session.
#[derive(Debug)]
pub struct ConfirmRestoreSessionMode {
    pub files: Vec<String>,
}

impl ConfirmRestoreSessionMode {
    /// Handles one key (`bound` is the first confirm key the press
    /// matches): yes reopens the files, always reopens them and stops
    /// asking, no goes on, never stops asking. Any answer goes to normal
    /// mode (`None` in the result); other keys keep asking.
    pub fn handle_key(self, bound: Option<ConfirmBinding>) -> (r: (Option<ConfirmRestoreSessionMode>, KeyResult))
        ensures
            match bound {
                Some(ConfirmBinding::Yes) => r.0 is None && (r.1 matches KeyResult::RestoreSession(f) && f == self.files),
                Some(ConfirmBinding::Always) => r.0 is None && (r.1 matches KeyResult::AlwaysRestoreSession(f) && f
                    == self.files),
                Some(ConfirmBinding::No) => r.0 is None && r.1 is Handled,
                Some(ConfirmBinding::Never) => r.0 is None && r.1 is NeverRestoreSession,
                None => r.1 is Handled && (r.0 matches Some(m) && m.files == self.files),
            },
    {
        match bound {
            Some(ConfirmBinding::Yes) => (None, KeyResult::RestoreSession(self.files)),
            Some(ConfirmBinding::Always) => (None, KeyResult::AlwaysRestoreSession(self.files)),
            Some(ConfirmBinding::No) => (None, KeyResult::Handled),
            Some(ConfirmBinding::Never) => (None, KeyResult::NeverRestoreSession),
            None => (Some(self), KeyResult::Handled),
        }
    }
}

} // verus!
