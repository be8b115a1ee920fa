//! A file-change list pane: the ordered list of changed files of either
//! the working directory or the stage, with at most one selected entry.
//!
//! Selection is owned by the pane; the status view only reads it, and
//! repairs after a refresh happen here, in [`ChangesComponent::set_items`].

use vstd::prelude::*;

use crate::command::{CommandInfo, CommandLabel, NAV_ORDER};
use crate::component::{CommandBlocking, Component, ScrollType, ShowError};
use crate::keys::{Key, KeyConfig};
use crate::queue::{IntentView, Queue};

verus! {

/// What happened to a changed file.
#[derive(Clone, Copy, PartialEq, Eq, Structural, Debug)]
pub enum ItemKind {
    Modified,
    Added,
    Deleted,
    Renamed,
    Untracked,
}

/// One changed-file entry of a status listing.
#[derive(Debug)]
pub struct StatusItem {
    pub path: String,
    pub kind: ItemKind,
}

/// The mathematical shape of a [`StatusItem`].
#[verifier::ext_equal]
pub struct StatusItemView {
    pub path: Seq<char>,
    pub kind: ItemKind,
}

impl View for StatusItem {
    type V = StatusItemView;

    open spec fn view(&self) -> StatusItemView {
        StatusItemView { path: self.path@, kind: self.kind }
    }
}

impl StatusItem {
    /// An equal entry under fresh ownership.
    pub fn duplicate(&self) -> (r: StatusItem)
        ensures
            r@ == self@,
    {
        StatusItem { path: self.path.clone(), kind: self.kind }
    }
}

/// A listing, entry by entry, as mathematical values.
pub open spec fn items_view(items: Seq<StatusItem>) -> Seq<StatusItemView> {
    items.map_values(|it: StatusItem| it@)
}

/// The first position carrying `path`, if any.
pub open spec fn spec_find_path(items: Seq<StatusItemView>, path: Seq<char>) -> Option<int>
    decreases items.len(),
{
    if items.len() == 0 {
        None
    } else if items[0].path == path {
        Some(0int)
    } else {
        match spec_find_path(items.drop_first(), path) {
            Some(j) => Some(j + 1),
            None => None,
        }
    }
}

/// A position returned by [`spec_find_path`] lies in the listing.
pub proof fn lemma_find_path_in_range(items: Seq<StatusItemView>, path: Seq<char>)
    ensures
        match spec_find_path(items, path) {
            Some(j) => 0 <= j < items.len() && items[j].path == path,
            None => true,
        },
    decreases items.len(),
{
    if items.len() > 0 && items[0].path != path {
        lemma_find_path_in_range(items.drop_first(), path);
    }
}

/// The mathematical state of a file-change list pane.
#[verifier::ext_equal]
pub struct ChangesView {
    pub is_working_dir: bool,
    pub items: Seq<StatusItemView>,
    pub selection: Option<usize>,
    pub focused: bool,
    pub show_selection: bool,
    pub branch: Option<Seq<char>>,
    pub key_config: KeyConfig,
}

impl ChangesView {
    /// Selection points into the list, and an empty list selects
    /// nothing.
    pub open spec fn wf(self) -> bool {
        match self.selection {
            Some(i) => i < self.items.len(),
            None => true,
        }
    }

    /// The selection after the list is replaced by `new_items`:
    /// an empty list selects nothing; a still-present previously
    /// selected path keeps being selected (at its new position); a
    /// vanished one falls back to the old position clamped into range;
    /// a pane that had no selection starts at the top.
    pub open spec fn repaired_selection(self, new_items: Seq<StatusItemView>) -> Option<usize> {
        if new_items.len() == 0 {
            None
        } else {
            match self.selection {
                None => Some(0usize),
                Some(i) => if i < self.items.len() {
                    match spec_find_path(new_items, self.items[i as int].path) {
                        Some(j) => Some(j as usize),
                        None => if i < new_items.len() {
                            Some(i)
                        } else {
                            Some((new_items.len() - 1) as usize)
                        },
                    }
                } else {
                    Some((new_items.len() - 1) as usize)
                },
            }
        }
    }

    /// The selection after a scroll request; `None` stays `None`, and a
    /// page jump without a rendered page height goes to the ends.
    pub open spec fn moved_selection(self, scroll: ScrollType) -> Option<usize> {
        match self.selection {
            None => None,
            Some(i) => match scroll {
                ScrollType::Up => if i > 0 {
                    Some((i - 1) as usize)
                } else {
                    Some(i)
                },
                ScrollType::Down => if i + 1 < self.items.len() {
                    Some((i + 1) as usize)
                } else {
                    Some(i)
                },
                ScrollType::Home | ScrollType::PageUp => Some(0usize),
                ScrollType::End | ScrollType::PageDown => if self.items.len() > 0 {
                    Some((self.items.len() - 1) as usize)
                } else {
                    Some(i)
                },
            },
        }
    }

    /// Which scroll, if any, this pane reads out of a key.
    pub open spec fn scroll_of_key(self, ev: Key) -> Option<ScrollType> {
        if ev == self.key_config.move_up {
            Some(ScrollType::Up)
        } else if ev == self.key_config.move_down {
            Some(ScrollType::Down)
        } else if ev == self.key_config.home {
            Some(ScrollType::Home)
        } else if ev == self.key_config.end {
            Some(ScrollType::End)
        } else {
            None
        }
    }

    /// The pane after one input event: when focused, a bound scroll key
    /// moves the selection; everything else leaves the pane alone.
    pub open spec fn event_next_view(self, ev: Key) -> ChangesView {
        if self.focused {
            match self.scroll_of_key(ev) {
                Some(scroll) => ChangesView { selection: self.moved_selection(scroll), ..self },
                None => self,
            }
        } else {
            self
        }
    }

    /// Whether one input event is consumed: only a focused pane
    /// consumes, and only a scroll key that actually moves the
    /// selection — a scroll at the list's edge is left for the parent.
    pub open spec fn event_consumes_view(self, ev: Key) -> bool {
        self.focused && match self.scroll_of_key(ev) {
            Some(scroll) => self.moved_selection(scroll) != self.selection,
            None => false,
        }
    }
}

/// A file-change list pane.
pub struct ChangesComponent {
    /// whether this pane lists the working directory (else the stage)
    pub is_working_dir: bool,
    /// the changed files, in listing order
    pub items: Vec<StatusItem>,
    /// position of the selected entry, if any
    pub selection: Option<usize>,
    /// whether this pane holds input focus
    pub focused: bool,
    /// whether this pane owns selection highlighting — kept in step
    /// with the status view's diff target, not with input focus
    pub show_selection: bool,
    /// the checked-out branch; only the working-directory pane carries
    /// one, and only when the host has provided it
    pub branch: Option<String>,
    /// resolved key bindings
    pub key_config: KeyConfig,
}

impl View for ChangesComponent {
    type V = ChangesView;

    open spec fn view(&self) -> ChangesView {
        ChangesView {
            is_working_dir: self.is_working_dir,
            items: items_view(self.items@),
            selection: self.selection,
            focused: self.focused,
            show_selection: self.show_selection,
            branch: match self.branch {
                Some(b) => Some(b@),
                None => None,
            },
            key_config: self.key_config,
        }
    }
}

impl ChangesComponent {
    /// An empty, unfocused pane.
    pub fn new(focus: bool, is_working_dir: bool, key_config: KeyConfig) -> (c: ChangesComponent)
        ensures
            c@ == (ChangesView {
                is_working_dir,
                items: Seq::empty(),
                selection: None,
                focused: focus,
                show_selection: focus,
                branch: None,
                key_config,
            }),
    {
        let c = ChangesComponent {
            is_working_dir,
            items: Vec::new(),
            selection: None,
            focused: focus,
            show_selection: focus,
            branch: None,
            key_config,
        };
        proof {
            assert(c@ =~= (ChangesView {
                is_working_dir,
                items: Seq::empty(),
                selection: None,
                focused: focus,
                show_selection: focus,
                branch: None,
                key_config,
            }));
        }
        c
    }

    /// Replaces the listed files, repairing the selection as
    /// [`ChangesView::repaired_selection`] states.
    pub fn set_items(&mut self, items: Vec<StatusItem>)
        ensures
            final(self)@ == (ChangesView {
                items: items_view(items@),
                selection: old(self)@.repaired_selection(items_view(items@)),
                ..old(self)@
            }),
            final(self)@.wf(),
    {
        let new_selection: Option<usize> = if items.len() == 0 {
            None
        } else {
            match self.selection {
                None => Some(0),
                Some(i) => if i < self.items.len() {
                    match self.find_path_in(&items, i) {
                        Some(j) => Some(j),
                        None => if i < items.len() {
                            Some(i)
                        } else {
                            Some(items.len() - 1)
                        },
                    }
                } else {
                    Some(items.len() - 1)
                },
            }
        };
        self.items = items;
        self.selection = new_selection;
        proof {
            assert(self@ =~= (ChangesView {
                items: items_view(items@),
                selection: old(self)@.repaired_selection(items_view(items@)),
                ..old(self)@
            }));
        }
    }

    /// First position of `new_items` carrying the path selected at `i`.
    fn find_path_in(&self, new_items: &Vec<StatusItem>, i: usize) -> (r: Option<usize>)
        requires
            i < self.items@.len(),
        ensures
            r == match spec_find_path(items_view(new_items@), self@.items[i as int].path) {
                Some(j) => Some(j as usize),
                None => None::<usize>,
            },
            r matches Some(j) ==> j < new_items@.len(),
    {
        let ghost iv = items_view(new_items@);
        let path = &self.items[i].path;
        let mut j: usize = 0;
        proof {
            assert(iv.skip(0) =~= iv);
        }
        while j < new_items.len()
            invariant
                j <= new_items@.len(),
                iv == items_view(new_items@),
                iv.len() == new_items@.len(),
                path@ == self@.items[i as int].path,
                spec_find_path(iv, path@) == match spec_find_path(iv.skip(j as int), path@) {
                    Some(l) => Some(l + j),
                    None => None::<int>,
                },
            decreases new_items@.len() - j,
        {
            proof {
                assert(iv.skip(j as int)[0] == iv[j as int]);
                assert(iv.skip(j as int).drop_first() =~= iv.skip(j + 1));
            }
            if new_items[j].path.eq(path) {
                return Some(j);
            }
            j += 1;
        }
        None
    }

    /// Whether a file is selected.
    pub fn is_file_selected(&self) -> (r: bool)
        ensures
            r == (self@.selection is Some),
    {
        self.selection.is_some()
    }

    /// The selected entry, if any.
    pub fn selection(&self) -> (r: Option<StatusItem>)
        requires
            self@.wf(),
        ensures
            match self@.selection {
                Some(i) => r matches Some(it) && it@ == self@.items[i as int],
                None => r is None,
            },
    {
        match self.selection {
            Some(i) => Some(self.items[i].duplicate()),
            None => None,
        }
    }

    /// The checked-out branch, if this pane carries one.
    pub fn branch_name(&self) -> (r: Option<String>)
        ensures
            match self@.branch {
                Some(b) => r matches Some(rb) && rb@ == b,
                None => r is None,
            },
    {
        match &self.branch {
            Some(b) => Some(b.clone()),
            None => None,
        }
    }

    /// Installs the branch name the host read from the repository.
    pub fn set_branch(&mut self, branch: Option<String>)
        ensures
            final(self)@ == (ChangesView {
                branch: match branch {
                    Some(b) => Some(b@),
                    None => None::<Seq<char>>,
                },
                ..old(self)@
            }),
    {
        self.branch = branch;
        proof {
            assert(self@ =~= (ChangesView {
                branch: match branch {
                    Some(b) => Some(b@),
                    None => None::<Seq<char>>,
                },
                ..old(self)@
            }));
        }
    }

    /// Whether the pane lists nothing.
    pub fn is_empty(&self) -> (r: bool)
        ensures
            r == (self@.items.len() == 0),
    {
        self.items.len() == 0
    }

    /// Makes this pane the selection owner (or not): tracks the status
    /// view's diff target and moves input focus along with it.
    pub fn focus_select(&mut self, select: bool)
        ensures
            final(self)@ == (ChangesView {
                focused: select,
                show_selection: select,
                ..old(self)@
            }),
    {
        self.focused = select;
        self.show_selection = select;
        proof {
            assert(self@ =~= (ChangesView {
                focused: select,
                show_selection: select,
                ..old(self)@
            }));
        }
    }

    /// Applies a scroll request; `true` iff the selection moved.
    pub fn move_selection(&mut self, scroll: ScrollType) -> (changed: bool)
        ensures
            final(self)@ == (ChangesView {
                selection: old(self)@.moved_selection(scroll),
                ..old(self)@
            }),
            changed == (old(self)@.moved_selection(scroll) != old(self)@.selection),
    {
        let n = self.items.len();
        let moved: Option<usize> = match self.selection {
            None => None,
            Some(i) => match scroll {
                ScrollType::Up => if i > 0 {
                    Some(i - 1)
                } else {
                    Some(i)
                },
                ScrollType::Down => if i < usize::MAX && i + 1 < n {
                    Some(i + 1)
                } else {
                    Some(i)
                },
                ScrollType::Home | ScrollType::PageUp => Some(0),
                ScrollType::End | ScrollType::PageDown => if n > 0 {
                    Some(n - 1)
                } else {
                    Some(i)
                },
            },
        };
        let changed = match (self.selection, moved) {
            (Some(a), Some(b)) => a != b,
            (None, None) => false,
            _ => true,
        };
        self.selection = moved;
        proof {
            assert(moved == old(self)@.moved_selection(scroll));
            assert(self@ =~= (ChangesView {
                selection: old(self)@.moved_selection(scroll),
                ..old(self)@
            }));
        }
        changed
    }
}

impl Component for ChangesComponent {
    open spec fn commands_of(&self, force_all: bool) -> Seq<CommandInfo> {
        seq![
            CommandInfo {
                label: CommandLabel::NavigateList,
                enabled: self@.items.len() > 0,
                shown: self@.focused,
                order: NAV_ORDER,
                hidden: false,
            },
        ]
    }

    open spec fn commands_replace(&self, force_all: bool) -> bool {
        false
    }

    open spec fn commands_blocking(&self) -> CommandBlocking {
        CommandBlocking::PassingOn
    }

    open spec fn event_consumes(&self, ev: Key) -> bool {
        self@.event_consumes_view(ev)
    }

    open spec fn event_next(&self, ev: Key) -> ChangesView {
        self@.event_next_view(ev)
    }

    open spec fn event_pushes(&self, ev: Key) -> Seq<IntentView> {
        Seq::empty()
    }

    open spec fn focused_spec(&self) -> bool {
        self@.focused
    }

    open spec fn with_focus(&self, focus: bool) -> ChangesView {
        ChangesView { focused: focus, ..self@ }
    }

    open spec fn visible_spec(&self) -> bool {
        true
    }

    open spec fn hidden_state(&self) -> ChangesView {
        self@
    }

    open spec fn shown_state(&self) -> ChangesView {
        self@
    }

    open spec fn show_succeeds(&self) -> bool {
        true
    }

    fn commands(&self, out: &mut Vec<CommandInfo>, force_all: bool) -> (blocking: CommandBlocking)
    {
        out.push(
            CommandInfo::new(
                CommandLabel::NavigateList,
                self.items.len() > 0,
                self.focused,
            ).order(NAV_ORDER),
        );
        proof {
            assert(out@ =~= old(out)@ + self.commands_of(force_all));
        }
        CommandBlocking::PassingOn
    }

    fn event(&mut self, ev: Key, queue: &mut Queue) -> (consumed: bool) {
        let changed = if self.focused {
            if ev == self.key_config.move_up {
                self.move_selection(ScrollType::Up)
            } else if ev == self.key_config.move_down {
                self.move_selection(ScrollType::Down)
            } else if ev == self.key_config.home {
                self.move_selection(ScrollType::Home)
            } else if ev == self.key_config.end {
                self.move_selection(ScrollType::End)
            } else {
                false
            }
        } else {
            false
        };
        proof {
            assert(queue@ =~= old(queue)@ + old(self).event_pushes(ev));
        }
        changed
    }

    fn focused(&self) -> (f: bool) {
        self.focused
    }

    fn focus(&mut self, focus: bool) {
        self.focused = focus;
        proof {
            assert(self@ =~= (ChangesView { focused: focus, ..old(self)@ }));
        }
    }

    fn is_visible(&self) -> (v: bool) {
        true
    }

    fn conceal(&mut self) {
    }

    fn show(&mut self) -> (r: Result<(), ShowError>) {
        Ok(())
    }

    fn toggle_visible(&mut self) -> (r: Result<(), ShowError>) {
        if self.is_visible() {
            self.conceal();
            Ok(())
        } else {
            self.show()
        }
    }
}

} // verus!
