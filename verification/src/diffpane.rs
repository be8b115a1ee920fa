//! The diff pane: displays the diff text for one `(path, staged)`
//! pair, and tells the status view which pair it currently shows so a
//! refresh for the same pair can be recognised without re-fetching.

use vstd::prelude::*;

use crate::command::{CommandInfo, CommandLabel, NAV_ORDER};
use crate::component::{CommandBlocking, Component, Direction, ShowError};
use crate::jobs::{FileDiff, lines_view};
use crate::keys::{Key, KeyConfig};
use crate::queue::{IntentView, Queue};

verus! {

/// The mathematical state of the diff pane.
#[verifier::ext_equal]
pub struct DiffPaneView {
    /// path of the displayed diff; empty when the pane is blank
    pub current_path: Seq<char>,
    /// whether the displayed diff is of the stage
    pub current_stage: bool,
    /// the displayed text, line by line
    pub lines: Seq<Seq<char>>,
    /// whether the pane is blank because a fetch is in flight (as
    /// opposed to blank because nothing is selected)
    pub pending: bool,
    /// whether the pane holds input focus
    pub focused: bool,
    /// first displayed line
    pub scroll: usize,
    /// resolved key bindings
    pub key_config: KeyConfig,
}

impl DiffPaneView {
    /// Whether the pane displays exactly the diff of `(path, stage)`.
    pub open spec fn shows(self, path: Seq<char>, stage: bool) -> bool {
        self.current_path == path && self.current_stage == stage
    }

    /// The scroll position after one step.
    pub open spec fn scrolled(self, dir: Direction) -> usize {
        match dir {
            Direction::Up => if self.scroll > 0 {
                (self.scroll - 1) as usize
            } else {
                self.scroll
            },
            Direction::Down => if self.scroll + 1 < self.lines.len() {
                (self.scroll + 1) as usize
            } else {
                self.scroll
            },
        }
    }

    /// Which step, if any, this pane reads out of a key.
    pub open spec fn dir_of_key(self, ev: Key) -> Option<Direction> {
        if ev == self.key_config.move_up {
            Some(Direction::Up)
        } else if ev == self.key_config.move_down {
            Some(Direction::Down)
        } else {
            None
        }
    }

    /// The pane after one input event: when focused, a bound step key
    /// scrolls; everything else leaves the pane alone.
    pub open spec fn event_next_view(self, ev: Key) -> DiffPaneView {
        if self.focused {
            match self.dir_of_key(ev) {
                Some(dir) => DiffPaneView { scroll: self.scrolled(dir), ..self },
                None => self,
            }
        } else {
            self
        }
    }

    /// Whether one input event is consumed: only a focused pane, and
    /// only a step that actually scrolls.
    pub open spec fn event_consumes_view(self, ev: Key) -> bool {
        self.focused && match self.dir_of_key(ev) {
            Some(dir) => self.scrolled(dir) != self.scroll,
            None => false,
        }
    }

    /// The pane after new content for `(path, stage)` is pushed in:
    /// the text is replaced, the pending mark clears, and the scroll
    /// survives only when the same pair stays displayed.
    pub open spec fn updated(self, path: Seq<char>, stage: bool, lines: Seq<Seq<char>>)
        -> DiffPaneView {
        DiffPaneView {
            current_path: path,
            current_stage: stage,
            lines,
            pending: false,
            scroll: if self.shows(path, stage) {
                self.scroll
            } else {
                0usize
            },
            ..self
        }
    }

    /// The pane blanked; `pending` distinguishes "fetch in flight"
    /// from "nothing selected".
    pub open spec fn cleared(self, pending: bool) -> DiffPaneView {
        DiffPaneView {
            current_path: Seq::empty(),
            current_stage: false,
            lines: Seq::empty(),
            pending,
            scroll: 0usize,
            ..self
        }
    }
}

/// The diff pane.
pub struct DiffComponent {
    /// path of the displayed diff; empty when the pane is blank
    pub current_path: String,
    /// whether the displayed diff is of the stage
    pub current_stage: bool,
    /// the displayed text, line by line
    pub lines: Vec<String>,
    /// whether the pane is blank because a fetch is in flight
    pub pending: bool,
    /// whether the pane holds input focus
    pub focused: bool,
    /// first displayed line
    pub scroll: usize,
    /// resolved key bindings
    pub key_config: KeyConfig,
}

impl View for DiffComponent {
    type V = DiffPaneView;

    open spec fn view(&self) -> DiffPaneView {
        DiffPaneView {
            current_path: self.current_path@,
            current_stage: self.current_stage,
            lines: lines_view(self.lines@),
            pending: self.pending,
            focused: self.focused,
            scroll: self.scroll,
            key_config: self.key_config,
        }
    }
}

impl DiffComponent {
    /// A blank, unfocused pane.
    pub fn new(key_config: KeyConfig) -> (c: DiffComponent)
        ensures
            c@ == (DiffPaneView {
                current_path: Seq::empty(),
                current_stage: false,
                lines: Seq::empty(),
                pending: false,
                focused: false,
                scroll: 0usize,
                key_config,
            }),
    {
        let c = DiffComponent {
            current_path: String::new(),
            current_stage: false,
            lines: Vec::new(),
            pending: false,
            focused: false,
            scroll: 0,
            key_config,
        };
        proof {
            assert(c@ =~= (DiffPaneView {
                current_path: Seq::empty(),
                current_stage: false,
                lines: Seq::empty(),
                pending: false,
                focused: false,
                scroll: 0usize,
                key_config,
            }));
        }
        c
    }

    /// Which `(path, staged)` pair the pane currently displays; the
    /// path is empty when the pane is blank.
    pub fn current(&self) -> (r: (String, bool))
        ensures
            r.0@ == self@.current_path,
            r.1 == self@.current_stage,
    {
        (self.current_path.clone(), self.current_stage)
    }

    /// Replaces the displayed content with `diff` for `(path, stage)`.
    pub fn update(&mut self, path: String, stage: bool, diff: FileDiff)
        ensures
            final(self)@ == old(self)@.updated(path@, stage, diff@),
    {
        let same = self.current_path.eq(&path) && self.current_stage == stage;
        if !same {
            self.scroll = 0;
        }
        self.current_path = path;
        self.current_stage = stage;
        self.lines = diff.lines;
        self.pending = false;
        proof {
            assert(self@ =~= old(self)@.updated(path@, stage, diff@));
        }
    }

    /// Blanks the pane; `pending` distinguishes "fetch in flight" from
    /// "nothing selected".
    pub fn clear(&mut self, pending: bool)
        ensures
            final(self)@ == old(self)@.cleared(pending),
    {
        self.current_path = String::new();
        self.current_stage = false;
        self.lines = Vec::new();
        self.pending = pending;
        self.scroll = 0;
        proof {
            assert(self@ =~= old(self)@.cleared(pending));
        }
    }

    /// Scrolls one step; `true` iff the position moved.
    pub fn scroll_step(&mut self, dir: Direction) -> (changed: bool)
        ensures
            final(self)@ == (DiffPaneView { scroll: old(self)@.scrolled(dir), ..old(self)@ }),
            changed == (old(self)@.scrolled(dir) != old(self)@.scroll),
    {
        let n = self.lines.len();
        let moved: usize = match dir {
            Direction::Up => if self.scroll > 0 {
                self.scroll - 1
            } else {
                self.scroll
            },
            Direction::Down => if self.scroll < usize::MAX && self.scroll + 1 < n {
                self.scroll + 1
            } else {
                self.scroll
            },
        };
        let changed = moved != self.scroll;
        self.scroll = moved;
        proof {
            assert(moved == old(self)@.scrolled(dir));
            assert(self@ =~= (DiffPaneView { scroll: old(self)@.scrolled(dir), ..old(self)@ }));
        }
        changed
    }
}

impl Component for DiffComponent {
    open spec fn commands_of(&self, force_all: bool) -> Seq<CommandInfo> {
        seq![
            CommandInfo {
                label: CommandLabel::ScrollDiff,
                enabled: self@.lines.len() > 0,
                shown: self@.focused,
                order: NAV_ORDER,
                hidden: false,
            },
        ]
    }

    open spec fn commands_replace(&self, force_all: bool) -> bool {
        false
    }

    open spec fn commands_blocking(&self) -> CommandBlocking {
        CommandBlocking::PassingOn
    }

    open spec fn event_consumes(&self, ev: Key) -> bool {
        self@.event_consumes_view(ev)
    }

    open spec fn event_next(&self, ev: Key) -> DiffPaneView {
        self@.event_next_view(ev)
    }

    open spec fn event_pushes(&self, ev: Key) -> Seq<IntentView> {
        Seq::empty()
    }

    open spec fn focused_spec(&self) -> bool {
        self@.focused
    }

    open spec fn with_focus(&self, focus: bool) -> DiffPaneView {
        DiffPaneView { focused: focus, ..self@ }
    }

    open spec fn visible_spec(&self) -> bool {
        true
    }

    open spec fn hidden_state(&self) -> DiffPaneView {
        self@
    }

    open spec fn shown_state(&self) -> DiffPaneView {
        self@
    }

    open spec fn show_succeeds(&self) -> bool {
        true
    }

    fn commands(&self, out: &mut Vec<CommandInfo>, force_all: bool) -> (blocking: CommandBlocking)
    {
        out.push(
            CommandInfo::new(
                CommandLabel::ScrollDiff,
                self.lines.len() > 0,
                self.focused,
            ).order(NAV_ORDER),
        );
        proof {
            assert(out@ =~= old(out)@ + self.commands_of(force_all));
        }
        CommandBlocking::PassingOn
    }

    fn event(&mut self, ev: Key, queue: &mut Queue) -> (consumed: bool) {
        let changed = if self.focused {
            if ev == self.key_config.move_up {
                self.scroll_step(Direction::Up)
            } else if ev == self.key_config.move_down {
                self.scroll_step(Direction::Down)
            } else {
                false
            }
        } else {
            false
        };
        proof {
            assert(queue@ =~= old(queue)@ + old(self).event_pushes(ev));
        }
        changed
    }

    fn focused(&self) -> (f: bool) {
        self.focused
    }

    fn focus(&mut self, focus: bool) {
        self.focused = focus;
        proof {
            assert(self@ =~= (DiffPaneView { focused: focus, ..old(self)@ }));
        }
    }

    fn is_visible(&self) -> (v: bool) {
        true
    }

    fn conceal(&mut self) {
    }

    fn show(&mut self) -> (r: Result<(), ShowError>) {
        Ok(())
    }

    fn toggle_visible(&mut self) -> (r: Result<(), ShowError>) {
        if self.is_visible() {
            self.conceal();
            Ok(())
        } else {
            self.show()
        }
    }
}

} // verus!
