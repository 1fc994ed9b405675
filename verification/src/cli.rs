//! The commands of the `:` command line, as parsed from its words.

use vstd::prelude::*;

verus! {

/// A parsed command line: the command, if one was given.
#[derive(Debug)]
pub struct CommandLine {
    pub command: Option<Commands>,
}

/// The commands of the command line.
#[derive(Debug)]
pub enum Commands {
    /// Add an include filter
    Filter {
        pattern: String,
        fg: Option<String>,
        bg: Option<String>,
        /// Apply color to the whole line instead of only the matched text
        line_mode: bool,
        /// Treat pattern as key=value and match against the named parsed field
        field: bool,
    },
    /// Add an exclude filter
    Exclude {
        pattern: String,
        /// Treat pattern as key=value and match against the named parsed field
        field: bool,
    },
    /// Set color for the selected filter
    SetColor {
        fg: Option<String>,
        bg: Option<String>,
        /// Apply color to the whole line instead of only the matched text
        line_mode: bool,
    },
    /// Export marked logs
    ExportMarked { path: String },
    /// Save filters to file
    SaveFilters { path: String },
    /// Load filters from file
    LoadFilters { path: String },
    /// Toggle line wrapping
    Wrap,
    /// Toggle line numbers
    LineNumbers,
    /// Set the theme
    SetTheme { theme_name: String },
    /// Toggle log level color highlighting
    LevelColors,
    /// Open a file in a new tab
    Open { path: String },
    /// Close the current tab
    CloseTab,
    /// Remove all filter definitions
    ClearFilters,
    /// Disable all filters without removing them
    DisableFilters,
    /// Enable all filters
    EnableFilters,
    /// Toggle global filtering on/off
    Filtering,
    /// Hide a JSON field by name or 0-based index
    HideField { field: String },
    /// Show a hidden JSON field by name or 0-based index
    ShowField { field: String },
    /// Clear all hidden fields
    ShowAllFields,
    /// Open a modal to select which JSON fields to display
    SelectFields,
    /// List running Docker containers and attach to one
    Docker,
    /// Toggle value-based color coding (HTTP methods, status codes, IPs, UUIDs)
    ValueColors,
    /// Export analysis (comments + marked lines) using a template
    Export {
        path: String,
        template: String,
    },
    /// Filter log lines by timestamp range or comparison
    DateFilter {
        /// Date filter expression (e.g. "01:00 .. 02:00", "> 2024-02-22")
        expr: Vec<String>,
        fg: Option<String>,
        bg: Option<String>,
        /// Apply color to the whole line instead of only the timestamp
        line_mode: bool,
    },
    /// Toggle tail mode (always scroll to last line on new content)
    Tail,
    /// Show field keys alongside values (e.g. key=value) in structured log display
    ShowKeys,
    /// Hide field keys and show only values in structured log display
    HideKeys,
    /// Toggle raw mode — disable the format parser and show unformatted log lines
    Raw,
    /// Stop all incoming data for the current tab (file watcher and/or stream)
    Stop,
    /// Pause applying incoming data to the view (watcher/stream keeps running)
    Pause,
    /// Resume applying incoming data after a pause
    Resume,
}

} // verus!
