//! The push-progress dialog: visible while a push runs, surfaces the
//! push's error over the bus when it fails, and dismisses itself when
//! the push completes.

use vstd::prelude::*;
use vstd::string::StringExecFns;

use crate::command::{CommandInfo, CommandLabel};
use crate::component::{CommandBlocking, Component, ShowError};
use crate::jobs::{Notification, PushJob, PushJobView, PushRequest};
use crate::keys::{Key, KeyConfig};
use crate::queue::{IntentView, Queue};

verus! {

/// The message surfaced when a push fails with `err`.
pub open spec fn push_failed_view(err: Seq<char>) -> Seq<char> {
    "push failed:\n"@ + err
}

/// The mathematical state of the push dialog.
#[verifier::ext_equal]
pub struct PushView {
    pub visible: bool,
    pub pending: bool,
    pub git_push: PushJobView,
    pub key_config: KeyConfig,
}

impl PushView {
    /// The dialog after a completion notification is folded in: while
    /// the push still runs it stays up; once done, a failure's message
    /// is surfaced and the dialog dismisses itself either way.
    pub open spec fn update_next(self) -> PushView {
        if self.git_push.in_flight {
            PushView { pending: true, ..self }
        } else {
            PushView { pending: false, visible: false, ..self }
        }
    }

    /// What folding a completion in pushes on the bus.
    pub open spec fn update_pushes(self) -> Seq<IntentView> {
        if self.git_push.in_flight {
            Seq::empty()
        } else {
            match self.git_push.last_error {
                Some(e) => seq![IntentView::ShowErrorMsg(push_failed_view(e))],
                None => Seq::empty(),
            }
        }
    }
}

/// The push-progress dialog.
pub struct PushComponent {
    /// whether the dialog is up
    pub visible: bool,
    /// whether the push was still running when last checked
    pub pending: bool,
    /// handle of the background push
    pub git_push: PushJob,
    /// resolved key bindings
    pub key_config: KeyConfig,
}

impl View for PushComponent {
    type V = PushView;

    open spec fn view(&self) -> PushView {
        PushView {
            visible: self.visible,
            pending: self.pending,
            git_push: self.git_push@,
            key_config: self.key_config,
        }
    }
}

impl PushComponent {
    /// A hidden dialog with an idle push handle.
    pub fn new(key_config: KeyConfig) -> (c: PushComponent)
        ensures
            c@ == (PushView {
                visible: false,
                pending: false,
                git_push: PushJobView { in_flight: false, last_request: None, last_error: None },
                key_config,
            }),
    {
        let c = PushComponent {
            visible: false,
            pending: false,
            git_push: PushJob::new(),
            key_config,
        };
        proof {
            assert(c@ =~= (PushView {
                visible: false,
                pending: false,
                git_push: PushJobView { in_flight: false, last_request: None, last_error: None },
                key_config,
            }));
        }
        c
    }

    /// Starts a push of `branch` to the `origin` remote and raises the
    /// dialog.
    pub fn push(&mut self, branch: String) -> (r: Result<(), ShowError>)
        ensures
            r is Ok,
            final(self)@ == (PushView {
                visible: true,
                pending: true,
                git_push: PushJobView {
                    in_flight: true,
                    last_request: Some(("origin"@, branch@)),
                    ..old(self)@.git_push
                },
                ..old(self)@
            }),
    {
        self.pending = true;
        self.git_push.request(PushRequest { remote: String::from_str("origin"), branch });
        self.visible = true;
        proof {
            assert(self@ =~= (PushView {
                visible: true,
                pending: true,
                git_push: PushJobView {
                    in_flight: true,
                    last_request: Some(("origin"@, branch@)),
                    ..old(self)@.git_push
                },
                ..old(self)@
            }));
        }
        Ok(())
    }

    /// Folds a completion notification in: only a push notification
    /// addressed to a visible dialog does anything.
    pub fn update_git(&mut self, ev: Notification, queue: &mut Queue)
        ensures
            old(self)@.visible && ev == Notification::Push ==> {
                &&& final(self)@ == old(self)@.update_next()
                &&& final(queue)@ == old(queue)@ + old(self)@.update_pushes()
            },
            !(old(self)@.visible && ev == Notification::Push) ==> {
                &&& final(self)@ == old(self)@
                &&& final(queue)@ == old(queue)@
            },
    {
        if self.is_visible() {
            if matches!(ev, Notification::Push) {
                self.update(queue);
            }
        }
    }

    /// Re-reads the push handle: while the push still runs the dialog
    /// stays up; once done, a failure's message is surfaced over the
    /// bus and the dialog dismisses itself either way.
    pub fn update(&mut self, queue: &mut Queue)
        ensures
            final(self)@ == old(self)@.update_next(),
            final(queue)@ == old(queue)@ + old(self)@.update_pushes(),
    {
        self.pending = self.git_push.is_pending();
        if !self.pending {
            match self.git_push.last_result() {
                Some(err) => {
                    let msg = String::from_str("push failed:\n").concat(err.as_str());
                    queue.push_back(crate::queue::InternalEvent::ShowErrorMsg(msg));
                },
                None => {},
            }
            self.conceal();
        }
        proof {
            assert(self@ =~= old(self)@.update_next());
            assert(queue@ =~= old(queue)@ + old(self)@.update_pushes());
        }
    }
}

impl Component for PushComponent {
    open spec fn commands_of(&self, force_all: bool) -> Seq<CommandInfo> {
        seq![
            CommandInfo {
                label: CommandLabel::CloseMsg,
                enabled: !self@.pending,
                shown: self@.visible,
                order: 0,
                hidden: false,
            },
        ]
    }

    open spec fn commands_replace(&self, force_all: bool) -> bool {
        self@.visible && !force_all
    }

    open spec fn commands_blocking(&self) -> CommandBlocking {
        if self@.visible {
            CommandBlocking::Blocking
        } else {
            CommandBlocking::PassingOn
        }
    }

    open spec fn event_consumes(&self, ev: Key) -> bool {
        self@.visible
    }

    open spec fn event_next(&self, ev: Key) -> PushView {
        if self@.visible && ev == self@.key_config.enter {
            PushView { visible: false, ..self@ }
        } else {
            self@
        }
    }

    open spec fn event_pushes(&self, ev: Key) -> Seq<IntentView> {
        Seq::empty()
    }

    open spec fn focused_spec(&self) -> bool {
        false
    }

    open spec fn with_focus(&self, focus: bool) -> PushView {
        self@
    }

    open spec fn visible_spec(&self) -> bool {
        self@.visible
    }

    open spec fn hidden_state(&self) -> PushView {
        PushView { visible: false, ..self@ }
    }

    open spec fn shown_state(&self) -> PushView {
        PushView { visible: true, ..self@ }
    }

    open spec fn show_succeeds(&self) -> bool {
        true
    }

    fn commands(&self, out: &mut Vec<CommandInfo>, force_all: bool) -> (blocking: CommandBlocking)
    {
        if self.visible && !force_all {
            // a raised dialog owns the command line: its commands
            // replace whatever the background contributed
            out.clear();
        }
        out.push(CommandInfo::new(CommandLabel::CloseMsg, !self.pending, self.visible));
        proof {
            assert(out@ =~= (if self.commands_replace(force_all) {
                Seq::empty()
            } else {
                old(out)@
            }) + self.commands_of(force_all));
        }
        if self.visible {
            CommandBlocking::Blocking
        } else {
            CommandBlocking::PassingOn
        }
    }

    fn event(&mut self, ev: Key, queue: &mut Queue) -> (consumed: bool) {
        let consumed = if self.visible {
            if ev == self.key_config.enter {
                self.conceal();
            }
            true
        } else {
            false
        };
        proof {
            assert(self@ =~= old(self).event_next(ev));
            assert(queue@ =~= old(queue)@ + old(self).event_pushes(ev));
        }
        consumed
    }

    fn focused(&self) -> (f: bool) {
        false
    }

    fn focus(&mut self, focus: bool) {
    }

    fn is_visible(&self) -> (v: bool) {
        self.visible
    }

    fn conceal(&mut self) {
        self.visible = false;
        proof {
            assert(self@ =~= (PushView { visible: false, ..old(self)@ }));
        }
    }

    fn show(&mut self) -> (r: Result<(), ShowError>) {
        self.visible = true;
        proof {
            assert(self@ =~= (PushView { visible: true, ..old(self)@ }));
        }
        Ok(())
    }

    fn toggle_visible(&mut self) -> (r: Result<(), ShowError>) {
        if self.is_visible() {
            self.conceal();
            Ok(())
        } else {
            self.show()
        }
    }
}

} // verus!
