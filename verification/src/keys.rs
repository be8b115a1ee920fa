//! Terminal input, reduced to the comparison values the core needs.
//!
//! Key-binding resolution is the host's business: by the time input
//! reaches a component it is a plain [`Key`] code, and the bindings a
//! component reacts to arrive as an already-resolved [`KeyConfig`].

use vstd::prelude::*;

verus! {

/// One terminal key press, as an opaque comparison value.
///
/// The host assigns codes; the core only ever compares them for
/// equality against the entries of a [`KeyConfig`].
#[derive(Clone, Copy, PartialEq, Eq, Structural, Debug)]
pub struct Key {
    pub code: u32,
}

/// The resolved key bindings a status view and its panes react to.
#[derive(Clone, Copy, PartialEq, Eq, Structural, Debug)]
pub struct KeyConfig {
    /// confirm / dismiss a dialog
    pub enter: Key,
    /// focus the working-directory pane
    pub focus_workdir: Key,
    /// focus the stage pane
    pub focus_stage: Key,
    /// focus the diff pane
    pub focus_right: Key,
    /// leave the diff pane
    pub focus_left: Key,
    /// move the selection up
    pub move_up: Key,
    /// move the selection down
    pub move_down: Key,
    /// jump to the first entry
    pub home: Key,
    /// jump to the last entry
    pub end: Key,
    /// open the selected file in an external editor
    pub edit_file: Key,
    /// request the branch-creation dialog
    pub create_branch: Key,
    /// request a push of the current branch
    pub push: Key,
}

impl KeyConfig {
    /// No two bindings share a key code.
    ///
    /// Input dispatch tests bindings in a fixed order, so duplicate
    /// codes would shadow later bindings; the transition lemmas assume
    /// a configuration free of such shadowing.
    pub open spec fn wf(self) -> bool {
        forall|a: int, b: int|
            0 <= a < b < Self::codes(self).len() ==> Self::codes(self)[a] != Self::codes(self)[b]
    }

    /// The bindings as a sequence, in dispatch order.
    pub open spec fn codes(self) -> Seq<u32> {
        seq![
            self.enter.code,
            self.focus_workdir.code,
            self.focus_stage.code,
            self.focus_right.code,
            self.focus_left.code,
            self.move_up.code,
            self.move_down.code,
            self.home.code,
            self.end.code,
            self.edit_file.code,
            self.create_branch.code,
            self.push.code,
        ]
    }
}

} // verus!
