//! Interactive core of a terminal version-control client.
//!
//! The library is a tree of composable UI components: file-change list
//! panes, a diff pane and a push-progress dialog, composed by a status
//! view that owns a focus state machine across the three panes, keeps a
//! "diff target" consistent with focus, and avoids redundant diff
//! fetches when asynchronous repository queries complete.
//!
//! Background repository queries are represented by client-side job
//! handles ([`jobs`]) with a pollable cached result; the host performs
//! the actual work and feeds completions back, so every decision the
//! core makes is a verified function of plain state. Cross-cutting
//! intents (show an error, open an editor, push a branch) travel over a
//! single-consumer FIFO [`queue::Queue`].

mod changes;
mod keys;
mod pane;
mod command;
mod component;
mod diffpane;
mod jobs;
mod push;
mod status;
mod queue;

pub use changes::{
    ChangesComponent, ChangesView, ItemKind, StatusItem, StatusItemView, items_view,
    lemma_find_path_in_range, spec_find_path,
};
pub use keys::{Key, KeyConfig};
pub use command::{CommandInfo, CommandLabel, NAV_ORDER};
pub use component::{
    CommandBlocking, Component, Direction, ScrollType, ShowError, visibility_blocking,
};
pub use jobs::{
    DiffJob, DiffJobView, DiffParams, DiffParamsView, FileDiff, Notification, PushJob,
    PushJobView, PushRequest, StatusJob, StatusJobView, StatusParams, StatusType,
    duplicate_items, lines_view,
};
pub use diffpane::{DiffComponent, DiffPaneView};
pub use push::{PushComponent, PushView, push_failed_view};
pub use status::{
    DiffTarget, Focus, Status, StatusView, full_ref_view, lemma_auto_advance_once,
    lemma_enter_diff_keeps_target, lemma_event_wf, lemma_leave_diff_restores_target,
    lemma_refresh_in_place, lemma_switch_focus_wf, lemma_target_switch, lemma_update_diff_wf,
    lemma_update_git_wf, lemma_update_status_wf, reset_failed_view, status_commands_view,
};
pub use pane::{
    Pane, PaneView, all_commands, command_pump, event_pump, first_consumer,
    lemma_blocking_dialog_owns_commands, lemma_first_consumer, lemma_force_all_collects_all,
    lemma_no_consume_no_change, lemma_no_replace_under_force_all, pumped_commands,
};
pub use queue::{InternalEvent, IntentView, Queue, ResetItem};
