//! Command descriptors: plain records describing one user-invocable
//! action for the help/status line. No behaviour; rebuilt every render
//! pass.

use vstd::prelude::*;

verus! {

/// Ordering rank that groups navigation commands in the status line.
pub const NAV_ORDER: i8 = 1;

/// Which action a descriptor stands for.
///
/// The set is closed; turning a label into display text (including the
/// bound key's name) is presentation and belongs to the host.
#[derive(Clone, Copy, PartialEq, Eq, Structural, Debug)]
pub enum CommandLabel {
    /// dismiss the message / progress dialog
    CloseMsg,
    /// open the selected file in an external editor
    EditItem,
    /// leave the diff pane
    DiffFocusLeft,
    /// focus the diff pane
    DiffFocusRight,
    /// open the branch-creation dialog
    OpenBranchCreatePopup,
    /// push the current branch
    StatusPush,
    /// return to the file lists
    SelectStatus,
    /// focus the stage pane
    SelectStaging,
    /// focus the working-directory pane
    SelectUnstaged,
    /// move the selection within a file list
    NavigateList,
    /// scroll the diff pane
    ScrollDiff,
}

/// One user-invocable action, as shown in the help/status line.
#[derive(Clone, Copy, PartialEq, Eq, Structural, Debug)]
pub struct CommandInfo {
    /// which action this is
    pub label: CommandLabel,
    /// whether the action currently does anything
    pub enabled: bool,
    /// whether the status line shows it in the current state
    pub shown: bool,
    /// ordering hint within the status line
    pub order: i8,
    /// kept out of the status line (full help listings still show it)
    pub hidden: bool,
}

impl CommandInfo {
    /// A visible descriptor with default ordering.
    pub fn new(label: CommandLabel, enabled: bool, shown: bool) -> (c: CommandInfo)
        ensures
            c == (CommandInfo { label, enabled, shown, order: 0, hidden: false }),
    {
        CommandInfo { label, enabled, shown, order: 0, hidden: false }
    }

    /// The same descriptor, kept out of the status line.
    pub fn hidden(self) -> (c: CommandInfo)
        ensures
            c == (CommandInfo { hidden: true, ..self }),
    {
        CommandInfo { hidden: true, ..self }
    }

    /// The same descriptor with an ordering rank.
    pub fn order(self, order: i8) -> (c: CommandInfo)
        ensures
            c == (CommandInfo { order, ..self }),
    {
        CommandInfo { order, ..self }
    }
}

} // verus!
