//! A closed set of child components, and the two composition helpers:
//! the event pump (depth-first, first-consumer-wins dispatch) and the
//! command pump (ordered aggregation, short-circuit on a blocking
//! component).

use vstd::prelude::*;

use crate::changes::{ChangesComponent, ChangesView};
use crate::command::CommandInfo;
use crate::component::{CommandBlocking, Component, ShowError};
use crate::diffpane::{DiffComponent, DiffPaneView};
use crate::keys::Key;
use crate::push::{PushComponent, PushView};
use crate::queue::{IntentView, Queue};

verus! {

/// One child component, as a member of an ordered composition.
pub enum Pane {
    Changes(ChangesComponent),
    Diff(DiffComponent),
    Push(PushComponent),
}

/// The mathematical state of a [`Pane`].
#[verifier::ext_equal]
pub enum PaneView {
    Changes(ChangesView),
    Diff(DiffPaneView),
    Push(PushView),
}

impl View for Pane {
    type V = PaneView;

    open spec fn view(&self) -> PaneView {
        match self {
            Pane::Changes(c) => PaneView::Changes(c@),
            Pane::Diff(d) => PaneView::Diff(d@),
            Pane::Push(p) => PaneView::Push(p@),
        }
    }
}

impl Component for Pane {
    open spec fn commands_of(&self, force_all: bool) -> Seq<CommandInfo> {
        match self {
            Pane::Changes(c) => c.commands_of(force_all),
            Pane::Diff(d) => d.commands_of(force_all),
            Pane::Push(p) => p.commands_of(force_all),
        }
    }

    open spec fn commands_replace(&self, force_all: bool) -> bool {
        match self {
            Pane::Changes(c) => c.commands_replace(force_all),
            Pane::Diff(d) => d.commands_replace(force_all),
            Pane::Push(p) => p.commands_replace(force_all),
        }
    }

    open spec fn commands_blocking(&self) -> CommandBlocking {
        match self {
            Pane::Changes(c) => c.commands_blocking(),
            Pane::Diff(d) => d.commands_blocking(),
            Pane::Push(p) => p.commands_blocking(),
        }
    }

    open spec fn event_consumes(&self, ev: Key) -> bool {
        match self {
            Pane::Changes(c) => c.event_consumes(ev),
            Pane::Diff(d) => d.event_consumes(ev),
            Pane::Push(p) => p.event_consumes(ev),
        }
    }

    open spec fn event_next(&self, ev: Key) -> PaneView {
        match self {
            Pane::Changes(c) => PaneView::Changes(c.event_next(ev)),
            Pane::Diff(d) => PaneView::Diff(d.event_next(ev)),
            Pane::Push(p) => PaneView::Push(p.event_next(ev)),
        }
    }

    open spec fn event_pushes(&self, ev: Key) -> Seq<IntentView> {
        match self {
            Pane::Changes(c) => c.event_pushes(ev),
            Pane::Diff(d) => d.event_pushes(ev),
            Pane::Push(p) => p.event_pushes(ev),
        }
    }

    open spec fn focused_spec(&self) -> bool {
        match self {
            Pane::Changes(c) => c.focused_spec(),
            Pane::Diff(d) => d.focused_spec(),
            Pane::Push(p) => p.focused_spec(),
        }
    }

    open spec fn with_focus(&self, focus: bool) -> PaneView {
        match self {
            Pane::Changes(c) => PaneView::Changes(c.with_focus(focus)),
            Pane::Diff(d) => PaneView::Diff(d.with_focus(focus)),
            Pane::Push(p) => PaneView::Push(p.with_focus(focus)),
        }
    }

    open spec fn visible_spec(&self) -> bool {
        match self {
            Pane::Changes(c) => c.visible_spec(),
            Pane::Diff(d) => d.visible_spec(),
            Pane::Push(p) => p.visible_spec(),
        }
    }

    open spec fn hidden_state(&self) -> PaneView {
        match self {
            Pane::Changes(c) => PaneView::Changes(c.hidden_state()),
            Pane::Diff(d) => PaneView::Diff(d.hidden_state()),
            Pane::Push(p) => PaneView::Push(p.hidden_state()),
        }
    }

    open spec fn shown_state(&self) -> PaneView {
        match self {
            Pane::Changes(c) => PaneView::Changes(c.shown_state()),
            Pane::Diff(d) => PaneView::Diff(d.shown_state()),
            Pane::Push(p) => PaneView::Push(p.shown_state()),
        }
    }

    open spec fn show_succeeds(&self) -> bool {
        match self {
            Pane::Changes(c) => c.show_succeeds(),
            Pane::Diff(d) => d.show_succeeds(),
            Pane::Push(p) => p.show_succeeds(),
        }
    }

    fn commands(&self, out: &mut Vec<CommandInfo>, force_all: bool) -> (blocking: CommandBlocking)
    {
        match self {
            Pane::Changes(c) => c.commands(out, force_all),
            Pane::Diff(d) => d.commands(out, force_all),
            Pane::Push(p) => p.commands(out, force_all),
        }
    }

    fn event(&mut self, ev: Key, queue: &mut Queue) -> (consumed: bool) {
        match self {
            Pane::Changes(c) => c.event(ev, queue),
            Pane::Diff(d) => d.event(ev, queue),
            Pane::Push(p) => p.event(ev, queue),
        }
    }

    fn focused(&self) -> (f: bool) {
        match self {
            Pane::Changes(c) => c.focused(),
            Pane::Diff(d) => d.focused(),
            Pane::Push(p) => p.focused(),
        }
    }

    fn focus(&mut self, focus: bool) {
        match self {
            Pane::Changes(c) => c.focus(focus),
            Pane::Diff(d) => d.focus(focus),
            Pane::Push(p) => p.focus(focus),
        }
    }

    fn is_visible(&self) -> (v: bool) {
        match self {
            Pane::Changes(c) => c.is_visible(),
            Pane::Diff(d) => d.is_visible(),
            Pane::Push(p) => p.is_visible(),
        }
    }

    fn conceal(&mut self) {
        match self {
            Pane::Changes(c) => c.conceal(),
            Pane::Diff(d) => d.conceal(),
            Pane::Push(p) => p.conceal(),
        }
    }

    fn show(&mut self) -> (r: Result<(), ShowError>) {
        match self {
            Pane::Changes(c) => c.show(),
            Pane::Diff(d) => d.show(),
            Pane::Push(p) => p.show(),
        }
    }

    fn toggle_visible(&mut self) -> (r: Result<(), ShowError>) {
        if self.is_visible() {
            self.conceal();
            Ok(())
        } else {
            self.show()
        }
    }
}

/// The first component that would consume `ev`, if any.
pub open spec fn first_consumer(s: Seq<Pane>, ev: Key) -> Option<int>
    decreases s.len(),
{
    if s.len() == 0 {
        None
    } else if s[0].event_consumes(ev) {
        Some(0int)
    } else {
        match first_consumer(s.drop_first(), ev) {
            Some(j) => Some(j + 1),
            None => None,
        }
    }
}

/// A position returned by [`first_consumer`] is the least consuming
/// one.
pub proof fn lemma_first_consumer(s: Seq<Pane>, ev: Key)
    ensures
        match first_consumer(s, ev) {
            Some(k) => 0 <= k < s.len() && s[k].event_consumes(ev) && forall|j: int|
                0 <= j < k ==> !(#[trigger] s[j].event_consumes(ev)),
            None => forall|j: int| 0 <= j < s.len() ==> !(#[trigger] s[j].event_consumes(ev)),
        },
    decreases s.len(),
{
    if s.len() > 0 && !s[0].event_consumes(ev) {
        lemma_first_consumer(s.drop_first(), ev);
        match first_consumer(s.drop_first(), ev) {
            Some(k2) => {
                assert(s.drop_first()[k2] == s[k2 + 1]);
                assert forall|j: int| 0 <= j < k2 + 1 implies !(#[trigger] s[j].event_consumes(
                    ev,
                )) by {
                    if j > 0 {
                        assert(s.drop_first()[j - 1] == s[j]);
                    }
                }
            },
            None => {
                assert forall|j: int| 0 <= j < s.len() implies !(#[trigger] s[j].event_consumes(
                    ev,
                )) by {
                    if j > 0 {
                        assert(s.drop_first()[j - 1] == s[j]);
                    }
                }
            },
        }
    }
}

/// A pane that does not consume an event is left unchanged by it.
pub proof fn lemma_no_consume_no_change(p: Pane, ev: Key)
    ensures
        !p.event_consumes(ev) ==> p.event_next(ev) == p@,
{
    if !p.event_consumes(ev) {
        match p {
            Pane::Changes(c) => {
                assert(c.event_next(ev) =~= c@);
            },
            Pane::Diff(d) => {
                assert(d.event_next(ev) =~= d@);
            },
            Pane::Push(q) => {
                assert(q.event_next(ev) =~= q@);
            },
        }
    }
}

/// Depth-first, first-consumer-wins input dispatch: the event goes to
/// each component in order; the first consumer ends propagation, and
/// components after it are never reached. `true` iff some component
/// consumed the event.
pub fn event_pump(ev: Key, components: &mut Vec<Pane>, queue: &mut Queue) -> (consumed: bool)
    ensures
        final(components)@.len() == old(components)@.len(),
        consumed == (first_consumer(old(components)@, ev) is Some),
        match first_consumer(old(components)@, ev) {
            Some(k) => {
                &&& final(components)@[k]@ == old(components)@[k].event_next(ev)
                &&& forall|j: int|
                    0 <= j < old(components)@.len() && j != k ==> (#[trigger] final(components)@[j])@
                        == old(components)@[j]@
                &&& final(queue)@ == old(queue)@ + old(components)@[k].event_pushes(ev)
            },
            None => {
                &&& forall|j: int|
                    0 <= j < old(components)@.len() ==> (#[trigger] final(components)@[j])@ == old(
                        components,
                    )@[j]@
                &&& final(queue)@ == old(queue)@
            },
        },
{
    let ghost s0 = components@;
    let mut i: usize = 0;
    proof {
        assert(s0.skip(0) =~= s0);
    }
    while i < components.len()
        invariant
            s0 == old(components)@,
            i <= components@.len(),
            components@.len() == s0.len(),
            queue@ == old(queue)@,
            forall|j: int| i <= j < s0.len() ==> components@[j] == s0[j],
            forall|j: int| 0 <= j < i ==> !(#[trigger] s0[j].event_consumes(ev)),
            forall|j: int| 0 <= j < i ==> #[trigger] components@[j]@ == s0[j]@,
            first_consumer(s0, ev) == match first_consumer(s0.skip(i as int), ev) {
                Some(l) => Some(l + i),
                None => None::<int>,
            },
        decreases components@.len() - i,
    {
        proof {
            assert(s0.skip(i as int)[0] == s0[i as int]);
            assert(s0.skip(i as int).drop_first() =~= s0.skip(i + 1));
        }
        let ghost pre = components@;
        let mut c = components.remove(i);
        let was_consumed = c.event(ev, queue);
        components.insert(i, c);
        proof {
            assert(components@ =~= pre.update(i as int, c));
            assert(components@.len() == s0.len());
        }
        if was_consumed {
            proof {
                assert(s0[i as int].event_consumes(ev));
                assert(first_consumer(s0.skip(i as int), ev) == Some(0int));
                assert(first_consumer(s0, ev) == Some(i as int));
                assert(components@[i as int]@ == s0[i as int].event_next(ev));
                assert forall|j: int| 0 <= j < s0.len() && j != i implies (#[trigger] components@[j])@
                    == s0[j]@ by {
                    assert(components@[j] == pre[j]);
                }
            }
            return true;
        }
        proof {
            lemma_no_consume_no_change(s0[i as int], ev);
        }
        i += 1;
    }
    false
}

/// What the command pump leaves in its output, starting from the
/// already-collected `acc`: each component in order either appends its
/// descriptors or — a replacing component, that is a visible modal
/// under a normal pass — discards everything gathered so far and
/// starts the list over with its own; the walk stops after the first
/// blocking component unless `force_all` overrides.
pub open spec fn pumped_commands(acc: Seq<CommandInfo>, s: Seq<Pane>, force_all: bool) -> Seq<
    CommandInfo,
>
    decreases s.len(),
{
    if s.len() == 0 {
        acc
    } else {
        let acc2 = (if s[0].commands_replace(force_all) {
            Seq::<CommandInfo>::empty()
        } else {
            acc
        }) + s[0].commands_of(force_all);
        if s[0].commands_blocking() == CommandBlocking::Blocking && !force_all {
            acc2
        } else {
            pumped_commands(acc2, s.drop_first(), force_all)
        }
    }
}

/// Every component's descriptors, in order.
pub open spec fn all_commands(s: Seq<Pane>, force_all: bool) -> Seq<CommandInfo>
    decreases s.len(),
{
    if s.len() == 0 {
        Seq::empty()
    } else {
        s[0].commands_of(force_all) + all_commands(s.drop_first(), force_all)
    }
}

/// No component replaces the collected list under a full-help pass.
pub proof fn lemma_no_replace_under_force_all(p: Pane)
    ensures
        !p.commands_replace(true),
{
}

/// A visible blocking dialog fully owns the command line: under a
/// normal pass, when the first blocking component of the list is a
/// replacing one (a raised modal), the pump ends with exactly that
/// component's commands — whatever was collected before it, and
/// wherever in the order it stands.
pub proof fn lemma_blocking_dialog_owns_commands(acc: Seq<CommandInfo>, s: Seq<Pane>, i: int)
    requires
        0 <= i < s.len(),
        s[i].commands_replace(false),
        s[i].commands_blocking() == CommandBlocking::Blocking,
        forall|j: int|
            0 <= j < i ==> (#[trigger] s[j].commands_blocking()) == CommandBlocking::PassingOn,
    ensures
        pumped_commands(acc, s, false) == s[i].commands_of(false),
    decreases s.len(),
{
    if i == 0 {
        assert(Seq::<CommandInfo>::empty() + s[0].commands_of(false) =~= s[0].commands_of(false));
    } else {
        let acc2 = (if s[0].commands_replace(false) {
            Seq::<CommandInfo>::empty()
        } else {
            acc
        }) + s[0].commands_of(false);
        assert(s.drop_first()[i - 1] == s[i]);
        assert forall|j: int| 0 <= j < i - 1 implies (#[trigger] s.drop_first()[j].commands_blocking())
            == CommandBlocking::PassingOn by {
            assert(s.drop_first()[j] == s[j + 1]);
        }
        lemma_blocking_dialog_owns_commands(acc2, s.drop_first(), i - 1);
    }
}

/// A full-help pass collects every component's commands, order
/// preserved, after whatever was already in the output.
pub proof fn lemma_force_all_collects_all(acc: Seq<CommandInfo>, s: Seq<Pane>)
    ensures
        pumped_commands(acc, s, true) == acc + all_commands(s, true),
    decreases s.len(),
{
    if s.len() == 0 {
        assert(acc + Seq::<CommandInfo>::empty() =~= acc);
    } else {
        lemma_no_replace_under_force_all(s[0]);
        let acc2 = acc + s[0].commands_of(true);
        lemma_force_all_collects_all(acc2, s.drop_first());
        assert(acc2 + all_commands(s.drop_first(), true) =~= acc + all_commands(s, true));
    }
}

/// Ordered command aggregation: walks the components in order, letting
/// each contribute to `out` — a visible modal replaces everything
/// collected before it — and stops as soon as one reports blocking,
/// unless `force_all` collects from everyone. A visible modal thus
/// fully owns the listing while background panes are suppressed.
pub fn command_pump(out: &mut Vec<CommandInfo>, force_all: bool, components: &Vec<Pane>)
    ensures
        final(out)@ == pumped_commands(old(out)@, components@, force_all),
{
    let ghost s0 = components@;
    let mut i: usize = 0;
    proof {
        assert(s0.skip(0) =~= s0);
    }
    while i < components.len()
        invariant
            i <= components@.len(),
            s0 == components@,
            pumped_commands(old(out)@, s0, force_all) == pumped_commands(
                out@,
                s0.skip(i as int),
                force_all,
            ),
        decreases components@.len() - i,
    {
        proof {
            assert(s0.skip(i as int)[0] == s0[i as int]);
            assert(s0.skip(i as int).drop_first() =~= s0.skip(i + 1));
        }
        let blocking = components[i].commands(out, force_all);
        if matches!(blocking, CommandBlocking::Blocking) && !force_all {
            proof {
                assert(out@ == pumped_commands(old(out)@, s0, force_all));
            }
            return;
        }
        i += 1;
    }
    proof {
        assert(s0.skip(i as int) =~= Seq::<Pane>::empty());
        assert(out@ == pumped_commands(old(out)@, s0, force_all));
    }
}

} // verus!
