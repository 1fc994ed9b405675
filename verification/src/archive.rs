//! The rows of the archive picker: one line per file or container of an
//! archive, with its indentation and checkbox.

use vstd::prelude::*;

verus! {

/// A checkbox: on, off, or (for a container) partly on.
#[derive(Debug, Clone, Copy, PartialEq, Eq, Structural)]
pub enum CheckState {
    Checked,
    Unchecked,
    Partial,
}

/// What a node of an archive is.
#[derive(Debug, Clone)]
pub enum ArchiveNodeKind {
    File,
    Container,
    /// A nested archive that could not be read, and why.
    UnreadableContainer(String),
}

/// A single rendered row of the archive picker: enough to draw one line
/// (name, indentation, checkbox) without knowing the tree.
#[derive(Debug, Clone)]
pub struct ArchiveRow {
    pub name: String,
    pub depth: usize,
    pub is_container: bool,
    pub check_state: CheckState,
    pub is_error: bool,
}

/// `r` is the row of a node named `name` at `depth`, of kind `kind`, whose
/// checkbox is `state`: an unreadable container shows its error after its
/// name, unchecked and marked as an error.
pub open spec fn is_row_for(name: Seq<char>, depth: usize, kind: ArchiveNodeKind, state: CheckState, r: ArchiveRow) -> bool {
    &&& r.depth == depth
    &&& match kind {
        ArchiveNodeKind::File => r.name@ == name && !r.is_container && r.check_state == state && !r.is_error,
        ArchiveNodeKind::Container => r.name@ == name && r.is_container && r.check_state == state && !r.is_error,
        ArchiveNodeKind::UnreadableContainer(e) => r.name@ == name + " ("@ + e@ + ")"@ && !r.is_container
            && r.check_state == CheckState::Unchecked && r.is_error,
    }
}

/// The row of a node named `name` at `depth`, of kind `kind`, whose
/// checkbox is `state`.
pub fn archive_row(name: &str, depth: usize, kind: &ArchiveNodeKind, state: CheckState) -> (r: ArchiveRow)
    ensures
        is_row_for(name@, depth, *kind, state, r),
{
    match kind {
        ArchiveNodeKind::File => ArchiveRow {
            name: String::from_str(name),
            depth,
            is_container: false,
            check_state: state,
            is_error: false,
        },
        ArchiveNodeKind::Container => ArchiveRow {
            name: String::from_str(name),
            depth,
            is_container: true,
            check_state: state,
            is_error: false,
        },
        ArchiveNodeKind::UnreadableContainer(e) => {
            let mut shown = String::from_str(name);
            shown.append(" (");
            shown.append(e.as_str());
            shown.append(")");
            ArchiveRow { name: shown, depth, is_container: false, check_state: CheckState::Unchecked, is_error: true }
        },
    }
}

} // verus!
