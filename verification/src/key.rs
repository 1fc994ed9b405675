//! The key events the modes react to, and what a handled key asks of the
//! application.

use vstd::prelude::*;

verus! {

/// A pressed key, reduced to what the modes distinguish.
#[derive(Debug, Clone, Copy, PartialEq, Eq, Structural)]
pub enum Key {
    Char(char),
    Enter,
    Esc,
    Backspace,
    Delete,
    Left,
    Right,
    Up,
    Down,
    Tab,
    BackTab,
    Other,
}

/// A key together with the modifiers held while it was pressed.
#[derive(Debug, Clone, Copy, PartialEq, Eq, Structural)]
pub struct KeyInput {
    pub key: Key,
    pub ctrl: bool,
    pub alt: bool,
    pub shift: bool,
    /// Any of Super, Hyper or Meta.
    pub meta: bool,
}

/// What the application does after a mode handled a key.
#[derive(Debug, Clone)]
pub enum KeyResult {
    /// The key was consumed; nothing more to do.
    Handled,
    /// The key falls through to the global key handling.
    Ignored,
    /// Run a command line.
    ExecuteCommand(String),
    /// Put text on the clipboard.
    CopyToClipboard(String),
    /// Make the tab with this index the active one.
    SwitchToTab(usize),
    /// Show this theme without committing to it.
    PreviewTheme(String),
    /// Commit to this theme.
    ConfirmTheme(String),
    /// Go back to the theme that was active when the picker opened.
    RevertTheme,
    /// Attach to a Docker container (id, name).
    DockerAttach(String, String),
    /// Connect to a DLT device (host, port, name).
    DltAttach(String, u16, String),
    /// Export with the given footer fields (name, text).
    ExportWithFooter { path: String, template_name: String, footer_fields: Vec<(String, String)> },
    /// Open a merged view of these tabs.
    OpenMergedView { source_tab_indices: Vec<usize> },
    /// Store (or clear) the default filter file of a log format.
    SetDefaultFilterFile { format: String, path: Option<String> },
    /// Show or hide the mode bar in every tab.
    ToggleModeBar,
    /// The filter sidebar now has this width.
    ResizeSidebar(u16),
    /// Skip restoring this file's previous state from now on.
    NeverRestoreFile,
    /// Reopen these files of the last session.
    RestoreSession(Vec<String>),
    /// Reopen these files, and do so from now on without asking.
    AlwaysRestoreSession(Vec<String>),
    /// Never offer to restore the last session again.
    NeverRestoreSession,
}

} // verus!
