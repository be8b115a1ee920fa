use statusview::{
    ChangesComponent, CommandBlocking, CommandLabel, Component, DiffComponent, DiffParams,
    FileDiff, Focus, InternalEvent, ItemKind, Key, KeyConfig, Notification, Pane, PushComponent,
    Queue, Status, StatusItem, command_pump, event_pump,
};

fn keys() -> KeyConfig {
    KeyConfig {
        enter: Key { code: 1 },
        focus_workdir: Key { code: 2 },
        focus_stage: Key { code: 3 },
        focus_right: Key { code: 4 },
        focus_left: Key { code: 5 },
        move_up: Key { code: 6 },
        move_down: Key { code: 7 },
        home: Key { code: 8 },
        end: Key { code: 9 },
        edit_file: Key { code: 10 },
        create_branch: Key { code: 11 },
        push: Key { code: 12 },
    }
}

fn item(path: &str) -> StatusItem {
    StatusItem { path: String::from(path), kind: ItemKind::Modified }
}

fn status_with_workdir(paths: &[&str]) -> Status {
    let mut s = Status::new(keys());
    let items: Vec<StatusItem> = paths.iter().map(|p| item(p)).collect();
    s.git_status_workdir.complete(items);
    s.git_status_stage.complete(Vec::new());
    s.update_git(Notification::Status);
    s
}

#[test]
fn queue_is_fifo() {
    let mut q = Queue::new();
    q.push_back(InternalEvent::CreateBranch);
    q.push_back(InternalEvent::Push(String::from("refs/heads/main")));
    assert_eq!(q.len(), 2);
    assert!(matches!(q.pop_front(), Some(InternalEvent::CreateBranch)));
    match q.pop_front() {
        Some(InternalEvent::Push(r)) => assert_eq!(r, "refs/heads/main"),
        other => panic!("unexpected {:?}", other),
    }
    assert!(q.pop_front().is_none());
}

#[test]
fn event_pump_first_consumer_wins() {
    let kc = keys();
    // A: unfocused list (never consumes); B: visible dialog (consumes
    // everything); C: focused list with entries (would consume).
    let a = ChangesComponent::new(false, true, kc);
    let mut b = PushComponent::new(kc);
    b.show().unwrap();
    let mut c = ChangesComponent::new(true, false, kc);
    c.set_items(vec![item("x"), item("y")]);
    let c_sel = c.selection;
    let mut panes = vec![Pane::Changes(a), Pane::Push(b), Pane::Changes(c)];
    let mut q = Queue::new();
    let consumed = event_pump(kc.move_down, &mut panes, &mut q);
    assert!(consumed);
    assert_eq!(q.len(), 0);
    // the components before and after the consumer are untouched
    match (&panes[0], &panes[1], &panes[2]) {
        (Pane::Changes(a2), Pane::Push(b2), Pane::Changes(c2)) => {
            assert!(a2.selection.is_none());
            assert!(b2.visible);
            assert_eq!(c2.selection, c_sel);
        },
        _ => panic!("panes changed shape"),
    }
}

#[test]
fn event_pump_none_consumes() {
    let kc = keys();
    let a = ChangesComponent::new(false, true, kc);
    let b = PushComponent::new(kc);
    let mut panes = vec![Pane::Changes(a), Pane::Push(b)];
    let mut q = Queue::new();
    assert!(!event_pump(kc.move_down, &mut panes, &mut q));
    assert_eq!(q.len(), 0);
}

#[test]
fn command_pump_blocks_on_visible_dialog() {
    let kc = keys();
    let a = ChangesComponent::new(true, true, kc);
    let mut b = PushComponent::new(kc);
    b.show().unwrap();
    let c = DiffComponent::new(kc);
    let panes = vec![Pane::Changes(a), Pane::Push(b), Pane::Diff(c)];

    // the visible dialog replaces what the list pane contributed and
    // stops the walk: only its commands remain
    let mut out = Vec::new();
    command_pump(&mut out, false, &panes);
    assert_eq!(out.len(), 1);
    assert_eq!(out[0].label, CommandLabel::CloseMsg);

    // a full-help listing overrides both: everything, order preserved
    let mut all = Vec::new();
    command_pump(&mut all, true, &panes);
    assert_eq!(all.len(), 3);
    assert_eq!(all[0].label, CommandLabel::NavigateList);
    assert_eq!(all[1].label, CommandLabel::CloseMsg);
    assert_eq!(all[2].label, CommandLabel::ScrollDiff);
}

#[test]
fn command_pump_hidden_dialog_passes_on() {
    let kc = keys();
    let a = ChangesComponent::new(true, true, kc);
    let b = PushComponent::new(kc);
    let c = DiffComponent::new(kc);
    let panes = vec![Pane::Changes(a), Pane::Push(b), Pane::Diff(c)];
    let mut out = Vec::new();
    command_pump(&mut out, false, &panes);
    assert_eq!(out.len(), 3);
    assert_eq!(out[0].label, CommandLabel::NavigateList);
    assert_eq!(out[1].label, CommandLabel::CloseMsg);
    assert_eq!(out[2].label, CommandLabel::ScrollDiff);
}

#[test]
fn down_at_list_end_with_empty_stage_stays() {
    let kc = keys();
    let mut s = status_with_workdir(&["a.txt", "b.txt"]);
    assert_eq!(s.focus, Focus::WorkDir);
    assert_eq!(s.index_wd.selection, Some(0));
    let mut q = Queue::new();
    // first press: the pane itself consumes and moves to b.txt
    assert!(s.event(kc.move_down, &mut q));
    assert_eq!(s.index_wd.selection, Some(1));
    assert_eq!(s.focus, Focus::WorkDir);
    // at the end of the list, the stage is empty: no transition
    assert!(!s.event(kc.move_down, &mut q));
    assert_eq!(s.focus, Focus::WorkDir);
    assert_eq!(s.index_wd.selection, Some(1));
    assert_eq!(q.len(), 0);
}

#[test]
fn focus_right_without_selection_not_consumed() {
    let kc = keys();
    let mut s = Status::new(kc);
    let mut q = Queue::new();
    assert!(!s.event(kc.focus_right, &mut q));
    assert_eq!(s.focus, Focus::WorkDir);
    assert_eq!(q.len(), 0);
}

#[test]
fn leave_diff_returns_to_diff_target() {
    let kc = keys();
    let mut s = status_with_workdir(&["a.txt"]);
    let mut q = Queue::new();
    assert!(s.event(kc.focus_right, &mut q));
    assert_eq!(s.focus, Focus::Diff);
    assert!(s.diff.focused);
    assert!(!s.index_wd.focused);
    // selection ownership stays with the working-directory pane
    assert!(s.index_wd.show_selection);
    assert!(s.event(kc.focus_left, &mut q));
    assert_eq!(s.focus, Focus::WorkDir);
    assert!(s.index_wd.focused);
    assert!(!s.diff.focused);
}

#[test]
fn refresh_in_place_issues_no_request() {
    let mut s = status_with_workdir(&["a.txt"]);
    // the first derivation dispatched a fetch for (a.txt, unstaged)
    assert!(s.git_diff.is_pending());
    s.git_diff.complete(
        DiffParams { path: String::from("a.txt"), stage: false },
        FileDiff { lines: vec![String::from("+hello")] },
    );
    s.update_git(Notification::Diff);
    assert!(!s.git_diff.is_pending());
    let shown = s.diff.current();
    assert_eq!(shown.0, "a.txt");
    assert!(!shown.1);
    assert_eq!(s.diff.lines.len(), 1);
    // same pair again: refresh-in-place, no new fetch dispatched
    s.update_git(Notification::Diff);
    assert!(!s.git_diff.is_pending());
    assert_eq!(s.diff.current().0, "a.txt");
}

#[test]
fn target_switch_enters_pending_state() {
    let kc = keys();
    let mut s = status_with_workdir(&["a.txt", "b.txt"]);
    s.git_diff.complete(
        DiffParams { path: String::from("a.txt"), stage: false },
        FileDiff { lines: vec![String::from("+hello")] },
    );
    s.update_git(Notification::Diff);
    assert!(!s.git_diff.is_pending());
    // select b.txt; the next derivation must issue exactly one fresh
    // request and blank the pane into its pending state
    let mut q = Queue::new();
    assert!(s.event(kc.move_down, &mut q));
    s.update_diff();
    assert!(s.git_diff.is_pending());
    assert_eq!(s.git_diff.in_flight.as_ref().unwrap().path, "b.txt");
    assert!(s.diff.pending);
    assert_eq!(s.diff.current().0, "");
}

#[test]
fn auto_advance_fires_once() {
    let kc = keys();
    let mut s = status_with_workdir(&["a.txt", "b.txt"]);
    let mut q = Queue::new();
    // a consumed child event marks the next refresh as locally caused
    assert!(s.event(kc.end, &mut q));
    assert!(s.git_action_executed);
    // the action staged both files: working directory empties, stage fills
    s.git_status_workdir.complete(Vec::new());
    s.git_status_stage.complete(vec![item("a.txt"), item("b.txt")]);
    s.update_git(Notification::Status);
    assert_eq!(s.focus, Focus::Stage);
    assert!(!s.git_action_executed);
    // an identical refresh right after does not oscillate
    s.update_git(Notification::Status);
    assert_eq!(s.focus, Focus::Stage);
}

#[test]
fn auto_advance_needs_local_action() {
    let mut s = status_with_workdir(&["a.txt"]);
    assert!(!s.git_action_executed);
    s.git_status_workdir.complete(Vec::new());
    s.git_status_stage.complete(vec![item("a.txt")]);
    s.update_git(Notification::Status);
    // an external refresh must not yank focus
    assert_eq!(s.focus, Focus::WorkDir);
}

#[test]
fn push_failure_surfaces_message() {
    let kc = keys();
    let mut p = PushComponent::new(kc);
    p.push(String::from("main")).unwrap();
    assert!(p.visible);
    assert!(p.pending);
    let req = p.git_push.last_request.as_ref().unwrap();
    assert_eq!(req.remote, "origin");
    assert_eq!(req.branch, "main");
    p.git_push.complete(Some(String::from("rejected")));
    let mut q = Queue::new();
    p.update_git(Notification::Push, &mut q);
    assert!(!p.visible);
    match q.pop_front() {
        Some(InternalEvent::ShowErrorMsg(m)) => assert_eq!(m, "push failed:\nrejected"),
        other => panic!("unexpected {:?}", other),
    }
}

#[test]
fn push_success_just_dismisses() {
    let kc = keys();
    let mut p = PushComponent::new(kc);
    p.push(String::from("main")).unwrap();
    p.git_push.complete(None);
    let mut q = Queue::new();
    p.update_git(Notification::Push, &mut q);
    assert!(!p.visible);
    assert_eq!(q.len(), 0);
}

#[test]
fn reset_failure_surfaces_message() {
    let s = Status::new(keys());
    let mut q = Queue::new();
    assert!(s.reset(None, &mut q));
    assert_eq!(q.len(), 0);
    assert!(!s.reset(Some(String::from("locked")), &mut q));
    match q.pop_front() {
        Some(InternalEvent::ShowErrorMsg(m)) => assert_eq!(m, "reset failed:\nlocked"),
        other => panic!("unexpected {:?}", other),
    }
}

#[test]
fn push_key_raises_full_ref() {
    let kc = keys();
    let mut s = status_with_workdir(&["a.txt"]);
    s.index_wd.set_branch(Some(String::from("main")));
    let mut q = Queue::new();
    assert!(s.event(kc.push, &mut q));
    match q.pop_front() {
        Some(InternalEvent::Push(r)) => assert_eq!(r, "refs/heads/main"),
        other => panic!("unexpected {:?}", other),
    }
}

#[test]
fn edit_key_raises_editor_intent() {
    let kc = keys();
    let mut s = status_with_workdir(&["a.txt"]);
    let mut q = Queue::new();
    assert!(s.event(kc.edit_file, &mut q));
    match q.pop_front() {
        Some(InternalEvent::OpenExternalEditor(Some(p))) => assert_eq!(p, "a.txt"),
        other => panic!("unexpected {:?}", other),
    }
}

#[test]
fn set_items_repairs_selection() {
    let kc = keys();
    let mut c = ChangesComponent::new(true, true, kc);
    c.set_items(vec![item("a"), item("b"), item("c")]);
    assert_eq!(c.selection, Some(0));
    let mut q = Queue::new();
    assert!(c.event(kc.end, &mut q));
    assert_eq!(c.selection, Some(2));
    // the selected path survives a reorder
    c.set_items(vec![item("c"), item("a")]);
    assert_eq!(c.selection, Some(0));
    // a vanished path clamps to the old position
    c.set_items(vec![item("x")]);
    assert_eq!(c.selection, Some(0));
    c.set_items(Vec::new());
    assert_eq!(c.selection, None);
}

#[test]
fn status_commands_reflect_state() {
    let mut s = status_with_workdir(&["a.txt"]);
    let mut out = Vec::new();
    assert_eq!(s.commands(&mut out, false), CommandBlocking::Blocking);
    let push_cmd = out.iter().find(|c| c.label == CommandLabel::StatusPush).unwrap();
    assert!(!push_cmd.enabled);
    let right = out.iter().find(|c| c.label == CommandLabel::DiffFocusRight).unwrap();
    assert!(right.enabled);
    s.index_wd.set_branch(Some(String::from("main")));
    let mut out2 = Vec::new();
    s.commands(&mut out2, false);
    let push_cmd2 = out2.iter().find(|c| c.label == CommandLabel::StatusPush).unwrap();
    assert!(push_cmd2.enabled);
}

#[test]
fn push_dialog_enter_dismisses() {
    let kc = keys();
    let mut p = PushComponent::new(kc);
    let mut q = Queue::new();
    assert!(!p.event(kc.enter, &mut q));
    p.show().unwrap();
    // a visible dialog consumes every key; enter dismisses it
    assert!(p.event(kc.move_down, &mut q));
    assert!(p.visible);
    assert!(p.event(kc.enter, &mut q));
    assert!(!p.visible);
    assert!(p.toggle_visible().is_ok());
    assert!(p.visible);
}
