//! The status view: composes the two file-change list panes and the
//! diff pane, owns the cross-pane focus state machine, keeps the diff
//! target consistent with focus, and re-derives which diff to show
//! whenever anything it depends on may have changed.

use vstd::prelude::*;
use vstd::string::StringExecFns;

use crate::changes::{ChangesComponent, ChangesView, lemma_find_path_in_range};
use crate::command::{CommandInfo, CommandLabel, NAV_ORDER};
use crate::component::{CommandBlocking, Component, ShowError};
use crate::diffpane::{DiffComponent, DiffPaneView};
use crate::jobs::{
    DiffJob, DiffJobView, DiffParams, DiffParamsView, Notification, StatusJob, StatusJobView,
    StatusParams, StatusType,
};
use crate::keys::{Key, KeyConfig};
use crate::queue::{IntentView, InternalEvent, Queue};

verus! {

/// Which pane holds terminal input focus.
#[derive(Clone, Copy, PartialEq, Eq, Structural, Debug)]
pub enum Focus {
    WorkDir,
    Diff,
    Stage,
}

/// Which listing the diff pane is bound to — independent of input
/// focus, so the diff pane keeps showing its target while focused.
#[derive(Clone, Copy, PartialEq, Eq, Structural, Debug)]
pub enum DiffTarget {
    Stage,
    WorkingDir,
}

/// The ref pushed for a branch name.
pub open spec fn full_ref_view(branch: Seq<char>) -> Seq<char> {
    "refs/heads/"@ + branch
}

/// The message surfaced when discarding a path's changes fails.
pub open spec fn reset_failed_view(err: Seq<char>) -> Seq<char> {
    "reset failed:\n"@ + err
}

/// The mathematical state of a status view.
#[verifier::ext_equal]
pub struct StatusView {
    pub visible: bool,
    pub focus: Focus,
    pub diff_target: DiffTarget,
    /// the stage pane
    pub index: ChangesView,
    /// the working-directory pane
    pub index_wd: ChangesView,
    pub diff: DiffPaneView,
    pub git_diff: DiffJobView,
    pub git_status_workdir: StatusJobView,
    pub git_status_stage: StatusJobView,
    /// one-shot mark: the next status refresh is attributed to a local
    /// action and may auto-advance focus
    pub git_action_executed: bool,
    pub key_config: KeyConfig,
}

impl StatusView {
    /// The structural invariant: pane selections are in range, exactly
    /// the pane holding focus has its focused flag set, selection
    /// ownership tracks the diff target, and the diff target agrees
    /// with focus whenever a list pane is focused.
    pub open spec fn wf(self) -> bool {
        &&& self.index.wf()
        &&& self.index_wd.wf()
        &&& self.index.focused == (self.focus == Focus::Stage)
        &&& self.index_wd.focused == (self.focus == Focus::WorkDir)
        &&& self.diff.focused == (self.focus == Focus::Diff)
        &&& self.index.show_selection == (self.diff_target == DiffTarget::Stage)
        &&& self.index_wd.show_selection == (self.diff_target == DiffTarget::WorkingDir)
        &&& (self.focus == Focus::WorkDir ==> self.diff_target == DiffTarget::WorkingDir)
        &&& (self.focus == Focus::Stage ==> self.diff_target == DiffTarget::Stage)
        &&& self.index.key_config == self.key_config
        &&& self.index_wd.key_config == self.key_config
        &&& self.diff.key_config == self.key_config
    }

    /// The selected path under the current diff target, with whether
    /// it is staged.
    pub open spec fn selected_path_view(self) -> Option<(Seq<char>, bool)> {
        let (pane, stage) = if self.diff_target == DiffTarget::Stage {
            (self.index, true)
        } else {
            (self.index_wd, false)
        };
        match pane.selection {
            Some(i) => if i < pane.items.len() {
                Some((pane.items[i as int].path, stage))
            } else {
                None
            },
            None => None,
        }
    }

    /// Whether the focused pane has a selected file, so the diff pane
    /// may take focus.
    pub open spec fn can_focus_diff_view(self) -> bool {
        match self.focus {
            Focus::WorkDir => self.index_wd.selection is Some,
            Focus::Stage => self.index.selection is Some,
            Focus::Diff => false,
        }
    }

    /// The view after the diff target is set: both list panes'
    /// selection ownership is re-derived.
    pub open spec fn with_diff_target(self, target: DiffTarget) -> StatusView {
        let is_stage = target == DiffTarget::Stage;
        StatusView {
            diff_target: target,
            index_wd: ChangesView {
                focused: !is_stage,
                show_selection: !is_stage,
                ..self.index_wd
            },
            index: ChangesView { focused: is_stage, show_selection: is_stage, ..self.index },
            ..self
        }
    }

    /// The diff re-derivation pass. With no file selected the pane is
    /// blanked idle. When the pane already shows the selected pair,
    /// this is a refresh-in-place: the job's cached result for exactly
    /// that pair is pushed in if present, and no request is made.
    /// Otherwise it is a target switch: one fresh request is issued,
    /// and an immediately available result is displayed while a miss
    /// blanks the pane in its pending state.
    pub open spec fn update_diff_next(self) -> StatusView {
        match self.selected_path_view() {
            None => StatusView { diff: self.diff.cleared(false), ..self },
            Some(sel) => {
                let params = DiffParamsView { path: sel.0, stage: sel.1 };
                if self.diff.shows(sel.0, sel.1) {
                    match self.git_diff.last_fetch {
                        Some(l) => if l.0 == params {
                            StatusView { diff: self.diff.updated(sel.0, sel.1, l.1), ..self }
                        } else {
                            self
                        },
                        None => self,
                    }
                } else {
                    let job = self.git_diff.request_next(params);
                    match self.git_diff.request_result(params) {
                        Some(d) => StatusView {
                            git_diff: job,
                            diff: self.diff.updated(sel.0, sel.1, d),
                            ..self
                        },
                        None => StatusView {
                            git_diff: job,
                            diff: self.diff.cleared(true),
                            ..self
                        },
                    }
                }
            },
        }
    }

    /// The focus transition table. A transition to the focus already
    /// held does nothing. Entering a list pane re-derives the diff
    /// target; entering the diff pane moves input focus only and keeps
    /// the diff target. Every actual transition ends with a diff
    /// re-derivation pass.
    /// The state between a focus transition's bookkeeping and its
    /// final diff re-derivation pass.
    pub open spec fn switch_focus_placed(self, f: Focus) -> StatusView {
        let moved = StatusView { focus: f, ..self };
        match f {
            Focus::WorkDir => StatusView {
                diff: DiffPaneView { focused: false, ..moved.diff },
                ..moved.with_diff_target(DiffTarget::WorkingDir)
            },
            Focus::Stage => StatusView {
                diff: DiffPaneView { focused: false, ..moved.diff },
                ..moved.with_diff_target(DiffTarget::Stage)
            },
            Focus::Diff => StatusView {
                index: ChangesView { focused: false, ..moved.index },
                index_wd: ChangesView { focused: false, ..moved.index_wd },
                diff: DiffPaneView { focused: true, ..moved.diff },
                ..moved
            },
        }
    }

    pub open spec fn switch_focus_next(self, f: Focus) -> StatusView {
        if self.focus == f {
            self
        } else {
            self.switch_focus_placed(f).update_diff_next()
        }
    }

    /// Whether a focus transition actually happens.
    pub open spec fn switch_focus_changed(self, f: Focus) -> bool {
        self.focus != f
    }

    /// The view after a status completion is folded in: both listings
    /// are re-pulled into their panes, the diff is re-derived, and —
    /// only when the refresh is attributed to a local action — focus
    /// auto-advances away from a pane that just emptied, once.
    pub open spec fn update_status_next(self) -> StatusView {
        let stage_items = self.git_status_stage.last_items;
        let wd_items = self.git_status_workdir.last_items;
        let s1 = StatusView {
            index: ChangesView {
                items: stage_items,
                selection: self.index.repaired_selection(stage_items),
                ..self.index
            },
            index_wd: ChangesView {
                items: wd_items,
                selection: self.index_wd.repaired_selection(wd_items),
                ..self.index_wd
            },
            ..self
        };
        let s2 = s1.update_diff_next();
        if s2.git_action_executed {
            let s3 = StatusView { git_action_executed: false, ..s2 };
            if s3.focus == Focus::WorkDir && wd_items.len() == 0 && stage_items.len() > 0 {
                s3.switch_focus_next(Focus::Stage)
            } else if s3.focus == Focus::Stage && stage_items.len() == 0 {
                s3.switch_focus_next(Focus::WorkDir)
            } else {
                s3
            }
        } else {
            s2
        }
    }

    /// The view after a poll tick: a visible view fires all three
    /// fetches, fire-and-forget.
    pub open spec fn update_next(self) -> StatusView {
        if self.visible {
            StatusView {
                git_diff: self.git_diff.refresh_next(),
                git_status_workdir: StatusJobView {
                    in_flight: true,
                    params: StatusParams { status_type: StatusType::WorkingDir },
                    ..self.git_status_workdir
                },
                git_status_stage: StatusJobView {
                    in_flight: true,
                    params: StatusParams { status_type: StatusType::Stage },
                    ..self.git_status_stage
                },
                ..self
            }
        } else {
            self
        }
    }

    /// The view after a completion notification is folded in.
    pub open spec fn update_git_next(self, ev: Notification) -> StatusView {
        match ev {
            Notification::Diff => self.update_diff_next(),
            Notification::Status => self.update_status_next(),
            Notification::Push => self,
        }
    }

    /// One input event: children get first refusal in pane order
    /// (stage, working directory, diff) and a consuming child marks
    /// the refresh as locally caused; unconsumed bound keys drive the
    /// focus machine or raise intents. The result is the next view,
    /// whether the event was consumed, and the raised intents.
    pub open spec fn event_step(self, ev: Key) -> (StatusView, bool, Seq<IntentView>) {
        if !self.visible {
            (self, false, Seq::empty())
        } else if self.index.event_consumes_view(ev) {
            (
                StatusView {
                    index: self.index.event_next_view(ev),
                    git_action_executed: true,
                    ..self
                },
                true,
                Seq::empty(),
            )
        } else if self.index_wd.event_consumes_view(ev) {
            (
                StatusView {
                    index_wd: self.index_wd.event_next_view(ev),
                    git_action_executed: true,
                    ..self
                },
                true,
                Seq::empty(),
            )
        } else if self.diff.event_consumes_view(ev) {
            (
                StatusView {
                    diff: self.diff.event_next_view(ev),
                    git_action_executed: true,
                    ..self
                },
                true,
                Seq::empty(),
            )
        } else if ev == self.key_config.focus_workdir {
            (self.switch_focus_next(Focus::WorkDir), self.switch_focus_changed(Focus::WorkDir),
            Seq::empty())
        } else if ev == self.key_config.focus_stage {
            (self.switch_focus_next(Focus::Stage), self.switch_focus_changed(Focus::Stage),
            Seq::empty())
        } else if ev == self.key_config.edit_file && (self.can_focus_diff_view() || self.focus
            == Focus::Diff) {
            (
                self,
                true,
                match self.selected_path_view() {
                    Some(sel) => seq![IntentView::OpenExternalEditor(Some(sel.0))],
                    None => Seq::empty(),
                },
            )
        } else if ev == self.key_config.focus_right && self.can_focus_diff_view() {
            (self.switch_focus_next(Focus::Diff), self.switch_focus_changed(Focus::Diff),
            Seq::empty())
        } else if ev == self.key_config.focus_left {
            let back = match self.diff_target {
                DiffTarget::Stage => Focus::Stage,
                DiffTarget::WorkingDir => Focus::WorkDir,
            };
            (self.switch_focus_next(back), self.switch_focus_changed(back), Seq::empty())
        } else if ev == self.key_config.move_down && self.focus == Focus::WorkDir
            && self.index.items.len() > 0 {
            (self.switch_focus_next(Focus::Stage), self.switch_focus_changed(Focus::Stage),
            Seq::empty())
        } else if ev == self.key_config.move_up && self.focus == Focus::Stage
            && self.index_wd.items.len() > 0 {
            (self.switch_focus_next(Focus::WorkDir), self.switch_focus_changed(Focus::WorkDir),
            Seq::empty())
        } else if ev == self.key_config.create_branch {
            (self, true, seq![IntentView::CreateBranch])
        } else if ev == self.key_config.push {
            (
                self,
                true,
                match self.index_wd.branch {
                    Some(b) => seq![IntentView::Push(full_ref_view(b))],
                    None => Seq::empty(),
                },
            )
        } else {
            (self, false, Seq::empty())
        }
    }
}

/// The full command listing of a status view: the children's entries
/// first (the pump over stage pane, working-directory pane, diff pane
/// — none of which blocks), then the view's own.
pub open spec fn status_commands_view(v: StatusView, force_all: bool) -> Seq<CommandInfo> {
    let children: Seq<CommandInfo> = if v.visible || force_all {
        seq![
            CommandInfo {
                label: CommandLabel::NavigateList,
                enabled: v.index.items.len() > 0,
                shown: v.index.focused,
                order: NAV_ORDER,
                hidden: false,
            },
            CommandInfo {
                label: CommandLabel::NavigateList,
                enabled: v.index_wd.items.len() > 0,
                shown: v.index_wd.focused,
                order: NAV_ORDER,
                hidden: false,
            },
            CommandInfo {
                label: CommandLabel::ScrollDiff,
                enabled: v.diff.lines.len() > 0,
                shown: v.diff.focused,
                order: NAV_ORDER,
                hidden: false,
            },
        ]
    } else {
        Seq::empty()
    };
    let focus_on_diff = v.focus == Focus::Diff;
    children + seq![
        CommandInfo {
            label: CommandLabel::EditItem,
            enabled: focus_on_diff || v.can_focus_diff_view(),
            shown: v.visible || force_all,
            order: 0,
            hidden: false,
        },
        CommandInfo {
            label: CommandLabel::DiffFocusLeft,
            enabled: true,
            shown: (v.visible && focus_on_diff) || force_all,
            order: 0,
            hidden: false,
        },
        CommandInfo {
            label: CommandLabel::DiffFocusRight,
            enabled: v.can_focus_diff_view(),
            shown: (v.visible && !focus_on_diff) || force_all,
            order: 0,
            hidden: false,
        },
        CommandInfo {
            label: CommandLabel::OpenBranchCreatePopup,
            enabled: true,
            shown: true,
            order: 0,
            hidden: false,
        },
        CommandInfo {
            label: CommandLabel::StatusPush,
            enabled: v.index_wd.branch is Some,
            shown: true,
            order: 0,
            hidden: false,
        },
        CommandInfo {
            label: CommandLabel::SelectStatus,
            enabled: true,
            shown: (v.visible && focus_on_diff) || force_all,
            order: 0,
            hidden: true,
        },
        CommandInfo {
            label: CommandLabel::SelectStaging,
            enabled: true,
            shown: (v.visible && v.focus == Focus::WorkDir) || force_all,
            order: NAV_ORDER,
            hidden: false,
        },
        CommandInfo {
            label: CommandLabel::SelectUnstaged,
            enabled: true,
            shown: (v.visible && v.focus == Focus::Stage) || force_all,
            order: NAV_ORDER,
            hidden: false,
        },
    ]
}

/// The status view.
pub struct Status {
    pub visible: bool,
    pub focus: Focus,
    pub diff_target: DiffTarget,
    /// the stage pane
    pub index: ChangesComponent,
    /// the working-directory pane
    pub index_wd: ChangesComponent,
    pub diff: DiffComponent,
    pub git_diff: DiffJob,
    pub git_status_workdir: StatusJob,
    pub git_status_stage: StatusJob,
    /// one-shot mark: the next status refresh is attributed to a local
    /// action and may auto-advance focus
    pub git_action_executed: bool,
    pub key_config: KeyConfig,
}

impl View for Status {
    type V = StatusView;

    open spec fn view(&self) -> StatusView {
        StatusView {
            visible: self.visible,
            focus: self.focus,
            diff_target: self.diff_target,
            index: self.index@,
            index_wd: self.index_wd@,
            diff: self.diff@,
            git_diff: self.git_diff@,
            git_status_workdir: self.git_status_workdir@,
            git_status_stage: self.git_status_stage@,
            git_action_executed: self.git_action_executed,
            key_config: self.key_config,
        }
    }
}

impl Status {
    /// A fresh, visible status view: working directory focused, diff
    /// bound to the working directory, all handles idle.
    pub fn new(key_config: KeyConfig) -> (s: Status)
        ensures
            s@.visible,
            s@.focus == Focus::WorkDir,
            s@.diff_target == DiffTarget::WorkingDir,
            s@.index.items.len() == 0,
            s@.index_wd.items.len() == 0,
            s@.index.selection is None,
            s@.index_wd.selection is None,
            s@.git_diff.in_flight is None,
            s@.git_diff.last_fetch is None,
            !s@.git_status_workdir.in_flight,
            !s@.git_status_stage.in_flight,
            s@.git_status_workdir.last_items.len() == 0,
            s@.git_status_stage.last_items.len() == 0,
            !s@.git_action_executed,
            !s@.diff.pending,
            s@.diff.current_path.len() == 0,
            s@.key_config == key_config,
            s@.index.key_config == key_config,
            s@.index_wd.key_config == key_config,
            s@.diff.key_config == key_config,
            s@.wf(),
    {
        Status {
            visible: true,
            focus: Focus::WorkDir,
            diff_target: DiffTarget::WorkingDir,
            index_wd: ChangesComponent::new(true, true, key_config),
            index: ChangesComponent::new(false, false, key_config),
            diff: DiffComponent::new(key_config),
            git_diff: DiffJob::new(),
            git_status_workdir: StatusJob::new(StatusType::WorkingDir),
            git_status_stage: StatusJob::new(StatusType::Stage),
            git_action_executed: false,
            key_config,
        }
    }

    /// Whether the focused pane has a selected file, so the diff pane
    /// may take focus.
    fn can_focus_diff(&self) -> (r: bool)
        ensures
            r == self@.can_focus_diff_view(),
    {
        match self.focus {
            Focus::WorkDir => self.index_wd.is_file_selected(),
            Focus::Stage => self.index.is_file_selected(),
            Focus::Diff => false,
        }
    }

    /// Sets the diff target and re-derives which pane owns selection
    /// highlighting.
    fn set_diff_target(&mut self, target: DiffTarget)
        ensures
            final(self)@ == old(self)@.with_diff_target(target),
    {
        self.diff_target = target;
        let is_stage = matches!(target, DiffTarget::Stage);
        self.index_wd.focus_select(!is_stage);
        self.index.focus_select(is_stage);
        proof {
            assert(self@ =~= old(self)@.with_diff_target(target));
        }
    }

    /// The selected path under the current diff target, with whether
    /// it is staged.
    pub fn selected_path(&self) -> (r: Option<(String, bool)>)
        ensures
            match self@.selected_path_view() {
                Some(sel) => r matches Some(rs) && rs.0@ == sel.0 && rs.1 == sel.1,
                None => r is None,
            },
    {
        let (pane, is_stage) = match self.diff_target {
            DiffTarget::Stage => (&self.index, true),
            DiffTarget::WorkingDir => (&self.index_wd, false),
        };
        match pane.selection {
            Some(i) => if i < pane.items.len() {
                Some((pane.items[i].path.clone(), is_stage))
            } else {
                None
            },
            None => None,
        }
    }

    /// The diff re-derivation pass; see
    /// [`StatusView::update_diff_next`].
    pub fn update_diff(&mut self)
        ensures
            final(self)@ == old(self)@.update_diff_next(),
    {
        match self.selected_path() {
            Some((path, is_stage)) => {
                let shown = self.diff.current();
                let same = shown.0.eq(&path) && shown.1 == is_stage;
                if same {
                    match self.git_diff.last() {
                        Some((params, last)) => {
                            if params.path.eq(&path) && params.stage == is_stage {
                                self.diff.update(path, is_stage, last);
                            }
                        },
                        None => {},
                    }
                } else {
                    match self.git_diff.request(DiffParams { path: path.clone(), stage: is_stage })
                    {
                        Some(diff) => self.diff.update(path, is_stage, diff),
                        None => self.diff.clear(true),
                    }
                }
            },
            None => {
                self.diff.clear(false);
            },
        }
        proof {
            assert(self@ =~= old(self)@.update_diff_next());
        }
    }

    /// The focus transition table; see
    /// [`StatusView::switch_focus_next`]. `true` iff a transition
    /// happened.
    #[verifier::rlimit(100)]
    fn switch_focus(&mut self, f: Focus) -> (changed: bool)
        ensures
            final(self)@ == old(self)@.switch_focus_next(f),
            changed == old(self)@.switch_focus_changed(f),
    {
        if self.focus != f {
            self.focus = f;
            match self.focus {
                Focus::WorkDir => {
                    self.set_diff_target(DiffTarget::WorkingDir);
                    self.diff.focus(false);
                },
                Focus::Stage => {
                    self.set_diff_target(DiffTarget::Stage);
                    self.diff.focus(false);
                },
                Focus::Diff => {
                    self.index.focus(false);
                    self.index_wd.focus(false);
                    self.diff.focus(true);
                },
            }
            proof {
                assert(self@ =~= old(self)@.switch_focus_placed(f));
            }
            self.update_diff();
            true
        } else {
            false
        }
    }

    /// Fires all three fetches when visible; completion is observed
    /// later via notifications, never awaited here.
    pub fn update(&mut self)
        ensures
            final(self)@ == old(self)@.update_next(),
    {
        if self.visible {
            self.git_diff.refresh();
            self.git_status_workdir.fetch(StatusParams::new(StatusType::WorkingDir));
            self.git_status_stage.fetch(StatusParams::new(StatusType::Stage));
            proof {
                assert(self@ =~= old(self)@.update_next());
            }
        }
    }

    /// Whether any of the three background queries is still running.
    pub fn anything_pending(&self) -> (r: bool)
        ensures
            r == (self@.git_diff.in_flight is Some || self@.git_status_stage.in_flight
                || self@.git_status_workdir.in_flight),
    {
        self.git_diff.is_pending() || self.git_status_stage.is_pending()
            || self.git_status_workdir.is_pending()
    }

    /// Folds a completion notification in; see
    /// [`StatusView::update_git_next`].
    pub fn update_git(&mut self, ev: Notification)
        ensures
            final(self)@ == old(self)@.update_git_next(ev),
    {
        match ev {
            Notification::Diff => self.update_diff(),
            Notification::Status => self.update_status(),
            Notification::Push => {},
        }
    }

    /// Folds a status completion in; see
    /// [`StatusView::update_status_next`].
    fn update_status(&mut self)
        ensures
            final(self)@ == old(self)@.update_status_next(),
    {
        let stage_status = self.git_status_stage.last();
        let stage_empty = stage_status.len() == 0;
        self.index.set_items(stage_status);

        let workdir_status = self.git_status_workdir.last();
        let workdir_empty = workdir_status.len() == 0;
        self.index_wd.set_items(workdir_status);

        self.update_diff();

        if self.git_action_executed {
            self.git_action_executed = false;
            if matches!(self.focus, Focus::WorkDir) && workdir_empty && !stage_empty {
                self.switch_focus(Focus::Stage);
            } else if matches!(self.focus, Focus::Stage) && stage_empty {
                self.switch_focus(Focus::WorkDir);
            }
        }
        proof {
            assert(self@ =~= old(self)@.update_status_next());
        }
    }

    /// Reports the outcome of discarding a path's changes, which the
    /// host performed after confirmation: a failure's message is
    /// surfaced over the bus; `true` iff the reset succeeded.
    pub fn reset(&self, error: Option<String>, queue: &mut Queue) -> (ok: bool)
        ensures
            match error {
                None => ok && final(queue)@ == old(queue)@,
                Some(e) => !ok && final(queue)@ == old(queue)@ + seq![
                    IntentView::ShowErrorMsg(reset_failed_view(e@)),
                ],
            },
    {
        match error {
            None => true,
            Some(e) => {
                let msg = String::from_str("reset failed:\n").concat(e.as_str());
                queue.push_back(InternalEvent::ShowErrorMsg(msg));
                false
            },
        }
    }

    /// Raises a push intent for the checked-out branch, if the
    /// working-directory pane carries one.
    fn push(&self, queue: &mut Queue)
        ensures
            match self@.index_wd.branch {
                Some(b) => final(queue)@ == old(queue)@ + seq![IntentView::Push(full_ref_view(b))],
                None => final(queue)@ == old(queue)@,
            },
    {
        match self.index_wd.branch_name() {
            Some(branch) => {
                let full = String::from_str("refs/heads/").concat(branch.as_str());
                queue.push_back(InternalEvent::Push(full));
            },
            None => {},
        }
    }
}

impl Component for Status {
    open spec fn commands_of(&self, force_all: bool) -> Seq<CommandInfo> {
        status_commands_view(self@, force_all)
    }

    open spec fn commands_replace(&self, force_all: bool) -> bool {
        false
    }

    open spec fn commands_blocking(&self) -> CommandBlocking {
        if self@.visible {
            CommandBlocking::Blocking
        } else {
            CommandBlocking::PassingOn
        }
    }

    open spec fn event_consumes(&self, ev: Key) -> bool {
        self@.event_step(ev).1
    }

    open spec fn event_next(&self, ev: Key) -> StatusView {
        self@.event_step(ev).0
    }

    open spec fn event_pushes(&self, ev: Key) -> Seq<IntentView> {
        self@.event_step(ev).2
    }

    open spec fn focused_spec(&self) -> bool {
        false
    }

    open spec fn with_focus(&self, focus: bool) -> StatusView {
        self@
    }

    open spec fn visible_spec(&self) -> bool {
        self@.visible
    }

    open spec fn hidden_state(&self) -> StatusView {
        StatusView { visible: false, ..self@ }
    }

    open spec fn shown_state(&self) -> StatusView {
        StatusView { visible: true, ..self@ }.update_next()
    }

    open spec fn show_succeeds(&self) -> bool {
        true
    }

    #[verifier::rlimit(100)]
    fn commands(&self, out: &mut Vec<CommandInfo>, force_all: bool) -> (blocking: CommandBlocking)
    {
        if self.visible || force_all {
            self.index.commands(out, force_all);
            self.index_wd.commands(out, force_all);
            self.diff.commands(out, force_all);
        }
        let focus_on_diff = matches!(self.focus, Focus::Diff);
        out.push(CommandInfo::new(
            CommandLabel::EditItem,
            focus_on_diff || self.can_focus_diff(),
            self.visible || force_all,
        ));
        out.push(CommandInfo::new(
            CommandLabel::DiffFocusLeft,
            true,
            (self.visible && focus_on_diff) || force_all,
        ));
        out.push(CommandInfo::new(
            CommandLabel::DiffFocusRight,
            self.can_focus_diff(),
            (self.visible && !focus_on_diff) || force_all,
        ));
        out.push(CommandInfo::new(CommandLabel::OpenBranchCreatePopup, true, true));
        out.push(CommandInfo::new(
            CommandLabel::StatusPush,
            self.index_wd.branch_name().is_some(),
            true,
        ));
        out.push(
            CommandInfo::new(
                CommandLabel::SelectStatus,
                true,
                (self.visible && focus_on_diff) || force_all,
            ).hidden(),
        );
        out.push(
            CommandInfo::new(
                CommandLabel::SelectStaging,
                true,
                (self.visible && matches!(self.focus, Focus::WorkDir)) || force_all,
            ).order(NAV_ORDER),
        );
        out.push(
            CommandInfo::new(
                CommandLabel::SelectUnstaged,
                true,
                (self.visible && matches!(self.focus, Focus::Stage)) || force_all,
            ).order(NAV_ORDER),
        );
        proof {
            assert(out@ =~= old(out)@ + status_commands_view(self@, force_all));
        }
        if self.visible {
            CommandBlocking::Blocking
        } else {
            CommandBlocking::PassingOn
        }
    }

    #[verifier::rlimit(100)]
    fn event(&mut self, ev: Key, queue: &mut Queue) -> (consumed: bool) {
        if !self.visible {
            proof {
                assert(self@ =~= old(self)@.event_step(ev).0);
                assert(queue@ =~= old(queue)@ + old(self)@.event_step(ev).2);
            }
            return false;
        }
        if self.index.event(ev, queue) {
            self.git_action_executed = true;
            proof {
                assert(self@ =~= old(self)@.event_step(ev).0);
                assert(queue@ =~= old(queue)@ + old(self)@.event_step(ev).2);
            }
            return true;
        }
        proof {
            assert(self@ =~= old(self)@);
        }
        if self.index_wd.event(ev, queue) {
            self.git_action_executed = true;
            proof {
                assert(self@ =~= old(self)@.event_step(ev).0);
                assert(queue@ =~= old(queue)@ + old(self)@.event_step(ev).2);
            }
            return true;
        }
        proof {
            assert(self@ =~= old(self)@);
        }
        if self.diff.event(ev, queue) {
            self.git_action_executed = true;
            proof {
                assert(self@ =~= old(self)@.event_step(ev).0);
                assert(queue@ =~= old(queue)@ + old(self)@.event_step(ev).2);
            }
            return true;
        }
        proof {
            assert(self@ =~= old(self)@);
            assert(queue@ =~= old(queue)@);
        }
        let consumed: bool = if ev == self.key_config.focus_workdir {
            self.switch_focus(Focus::WorkDir)
        } else if ev == self.key_config.focus_stage {
            self.switch_focus(Focus::Stage)
        } else if ev == self.key_config.edit_file
            && (self.can_focus_diff() || matches!(self.focus, Focus::Diff)) {
            match self.selected_path() {
                Some((path, _)) => {
                    queue.push_back(InternalEvent::OpenExternalEditor(Some(path)));
                },
                None => {},
            }
            true
        } else if ev == self.key_config.focus_right && self.can_focus_diff() {
            self.switch_focus(Focus::Diff)
        } else if ev == self.key_config.focus_left {
            let back = match self.diff_target {
                DiffTarget::Stage => Focus::Stage,
                DiffTarget::WorkingDir => Focus::WorkDir,
            };
            self.switch_focus(back)
        } else if ev == self.key_config.move_down && matches!(self.focus, Focus::WorkDir)
            && !self.index.is_empty() {
            self.switch_focus(Focus::Stage)
        } else if ev == self.key_config.move_up && matches!(self.focus, Focus::Stage)
            && !self.index_wd.is_empty() {
            self.switch_focus(Focus::WorkDir)
        } else if ev == self.key_config.create_branch {
            queue.push_back(InternalEvent::CreateBranch);
            true
        } else if ev == self.key_config.push {
            self.push(queue);
            true
        } else {
            false
        };
        proof {
            assert(self@ =~= old(self)@.event_step(ev).0);
            assert(queue@ =~= old(queue)@ + old(self)@.event_step(ev).2);
        }
        consumed
    }

    fn focused(&self) -> (f: bool) {
        false
    }

    fn focus(&mut self, focus: bool) {
    }

    fn is_visible(&self) -> (v: bool) {
        self.visible
    }

    fn conceal(&mut self) {
        self.visible = false;
        proof {
            assert(self@ =~= (StatusView { visible: false, ..old(self)@ }));
        }
    }

    fn show(&mut self) -> (r: Result<(), ShowError>) {
        self.visible = true;
        proof {
            assert(self@ =~= (StatusView { visible: true, ..old(self)@ }));
        }
        self.update();
        Ok(())
    }

    fn toggle_visible(&mut self) -> (r: Result<(), ShowError>) {
        if self.is_visible() {
            self.conceal();
            Ok(())
        } else {
            self.show()
        }
    }
}

/// The diff re-derivation pass never disturbs the focus machinery: the
/// list panes, focus, diff target and the structural invariant all
/// survive it.
pub proof fn lemma_update_diff_wf(v: StatusView)
    requires
        v.wf(),
    ensures
        v.update_diff_next().wf(),
        v.update_diff_next().focus == v.focus,
        v.update_diff_next().diff_target == v.diff_target,
        v.update_diff_next().index == v.index,
        v.update_diff_next().index_wd == v.index_wd,
        v.update_diff_next().git_action_executed == v.git_action_executed,
{
}

/// Every focus transition keeps the structural invariant: exactly one
/// pane holds input focus afterwards, the pane matching the diff
/// target owns selection highlighting, and the diff target agrees with
/// any focused list pane.
pub proof fn lemma_switch_focus_wf(v: StatusView, f: Focus)
    requires
        v.wf(),
    ensures
        v.switch_focus_next(f).wf(),
        v.switch_focus_next(f).focus == (if v.focus == f {
            v.focus
        } else {
            f
        }),
{
    if v.focus != f {
        let placed = v.switch_focus_placed(f);
        assert(placed.wf());
        lemma_update_diff_wf(placed);
    }
}

/// Entering the diff pane never changes the diff target.
pub proof fn lemma_enter_diff_keeps_target(v: StatusView)
    ensures
        v.switch_focus_next(Focus::Diff).diff_target == v.diff_target,
{
}

/// Folding a status completion in keeps the structural invariant, and
/// clears the one-shot local-action mark.
pub proof fn lemma_update_status_wf(v: StatusView)
    requires
        v.wf(),
    ensures
        v.update_status_next().wf(),
        !v.update_status_next().git_action_executed,
    decreases 0int,
{
    let stage_items = v.git_status_stage.last_items;
    let wd_items = v.git_status_workdir.last_items;
    match v.index.selection {
        Some(i) => if i < v.index.items.len() {
            lemma_find_path_in_range(stage_items, v.index.items[i as int].path);
        },
        None => {},
    }
    match v.index_wd.selection {
        Some(i) => if i < v.index_wd.items.len() {
            lemma_find_path_in_range(wd_items, v.index_wd.items[i as int].path);
        },
        None => {},
    }
    let s1 = StatusView {
        index: ChangesView {
            items: stage_items,
            selection: v.index.repaired_selection(stage_items),
            ..v.index
        },
        index_wd: ChangesView {
            items: wd_items,
            selection: v.index_wd.repaired_selection(wd_items),
            ..v.index_wd
        },
        ..v
    };
    assert(s1.wf());
    lemma_update_diff_wf(s1);
    let s2 = s1.update_diff_next();
    if s2.git_action_executed {
        let s3 = StatusView { git_action_executed: false, ..s2 };
        assert(s3.wf());
        if s3.focus == Focus::WorkDir && wd_items.len() == 0 && stage_items.len() > 0 {
            lemma_switch_focus_wf(s3, Focus::Stage);
        } else if s3.focus == Focus::Stage && stage_items.len() == 0 {
            lemma_switch_focus_wf(s3, Focus::WorkDir);
        }
    }
}

/// Every input event keeps the structural invariant: whatever sequence
/// of focus transitions input drives, exactly one of the three panes
/// is active afterwards and the diff target tracks the last list pane
/// entered.
pub proof fn lemma_event_wf(v: StatusView, ev: Key)
    requires
        v.wf(),
    ensures
        v.event_step(ev).0.wf(),
{
    let next = v.event_step(ev).0;
    if !v.visible {
    } else if v.index.event_consumes_view(ev) {
        assert(next.wf());
    } else if v.index_wd.event_consumes_view(ev) {
        assert(next.wf());
    } else if v.diff.event_consumes_view(ev) {
        assert(next.wf());
    } else {
        lemma_switch_focus_wf(v, Focus::WorkDir);
        lemma_switch_focus_wf(v, Focus::Stage);
        lemma_switch_focus_wf(v, Focus::Diff);
    }
}

/// Every completion notification keeps the structural invariant.
pub proof fn lemma_update_git_wf(v: StatusView, ev: Notification)
    requires
        v.wf(),
    ensures
        v.update_git_next(ev).wf(),
{
    match ev {
        Notification::Diff => lemma_update_diff_wf(v),
        Notification::Status => lemma_update_status_wf(v),
        Notification::Push => {},
    }
}

/// Leaving the diff pane restores focus to the pane matching the
/// current diff target — not necessarily the pane that was focused
/// before entering the diff. (Shadow-free bindings are assumed so the
/// earlier entries of the dispatch chain cannot hijack the key, and a
/// focused diff pane consumes no bound scroll key it cannot act on
/// beyond its own text.)
pub proof fn lemma_leave_diff_restores_target(v: StatusView, ev: Key)
    requires
        v.wf(),
        v.visible,
        v.focus == Focus::Diff,
        v.key_config.wf(),
        ev == v.key_config.focus_left,
    ensures
        v.event_step(ev).1,
        v.event_step(ev).0.focus == (match v.diff_target {
            DiffTarget::Stage => Focus::Stage,
            DiffTarget::WorkingDir => Focus::WorkDir,
        }),
{
    let kc = v.key_config;
    assert(!v.index.event_consumes_view(ev));
    assert(!v.index_wd.event_consumes_view(ev));
    assert(ev != kc.focus_workdir && ev != kc.focus_stage && ev != kc.edit_file && ev
        != kc.focus_right && ev != kc.move_up && ev != kc.move_down) by {
        assert(kc.codes()[4] == kc.focus_left.code);
        assert(kc.codes()[1] == kc.focus_workdir.code);
        assert(kc.codes()[2] == kc.focus_stage.code);
        assert(kc.codes()[9] == kc.edit_file.code);
        assert(kc.codes()[3] == kc.focus_right.code);
        assert(kc.codes()[5] == kc.move_up.code);
        assert(kc.codes()[6] == kc.move_down.code);
    }
    assert(!v.diff.event_consumes_view(ev));
    let back = match v.diff_target {
        DiffTarget::Stage => Focus::Stage,
        DiffTarget::WorkingDir => Focus::WorkDir,
    };
    lemma_switch_focus_wf(v, back);
}

/// Refresh-in-place: when the diff pane already shows exactly the
/// selected pair, a diff re-derivation asks the job for nothing new —
/// the handle is left entirely untouched, so its request count for
/// that pair cannot grow.
pub proof fn lemma_refresh_in_place(v: StatusView, path: Seq<char>, stage: bool)
    requires
        v.selected_path_view() == Some((path, stage)),
        v.diff.shows(path, stage),
    ensures
        v.update_diff_next().git_diff == v.git_diff,
{
}

/// Target switch: when the selected pair changes to one the pane does
/// not show and the cache does not answer, exactly that pair's fetch
/// ends up in flight and the pane blanks into its pending state.
pub proof fn lemma_target_switch(v: StatusView, path: Seq<char>, stage: bool)
    requires
        v.selected_path_view() == Some((path, stage)),
        !v.diff.shows(path, stage),
        !v.git_diff.cached_for(DiffParamsView { path, stage }),
    ensures
        v.update_diff_next().git_diff.in_flight == Some(DiffParamsView { path, stage }),
        v.update_diff_next().git_diff.last_fetch == v.git_diff.last_fetch,
        v.update_diff_next().diff.pending,
        v.update_diff_next().diff.lines.len() == 0,
{
}

/// Auto-advance fires exactly once: a locally-caused refresh that
/// empties the working directory while the stage is non-empty moves
/// focus to the stage, clears the one-shot mark, and an identical
/// refresh right after it leaves focus on the stage — no oscillation.
pub proof fn lemma_auto_advance_once(v: StatusView)
    requires
        v.wf(),
        v.git_action_executed,
        v.focus == Focus::WorkDir,
        v.git_status_workdir.last_items.len() == 0,
        v.git_status_stage.last_items.len() > 0,
    ensures
        v.update_status_next().focus == Focus::Stage,
        !v.update_status_next().git_action_executed,
        v.update_status_next().update_status_next().focus == Focus::Stage,
{
    lemma_update_status_wf(v);
    let v1 = v.update_status_next();
    assert(v1.focus == Focus::Stage) by {
        let s1 = StatusView {
            index: ChangesView {
                items: v.git_status_stage.last_items,
                selection: v.index.repaired_selection(v.git_status_stage.last_items),
                ..v.index
            },
            index_wd: ChangesView {
                items: v.git_status_workdir.last_items,
                selection: v.index_wd.repaired_selection(v.git_status_workdir.last_items),
                ..v.index_wd
            },
            ..v
        };
        lemma_update_diff_wf(s1);
        let s3 = StatusView { git_action_executed: false, ..s1.update_diff_next() };
        lemma_switch_focus_wf(s3, Focus::Stage);
    }
    lemma_update_status_wf(v1);
    let s1b = StatusView {
        index: ChangesView {
            items: v1.git_status_stage.last_items,
            selection: v1.index.repaired_selection(v1.git_status_stage.last_items),
            ..v1.index
        },
        index_wd: ChangesView {
            items: v1.git_status_workdir.last_items,
            selection: v1.index_wd.repaired_selection(v1.git_status_workdir.last_items),
            ..v1.index_wd
        },
        ..v1
    };
    lemma_update_diff_wf(s1b);
}

} // verus!
