//! The polymorphic contract every UI node implements, and the two
//! composition helpers built on it: an event pump (depth-first,
//! first-consumer-wins input dispatch) and a command pump (ordered
//! command aggregation with short-circuit on a blocking component).
//!
//! Every method of [`Component`] is pinned to a spec-level mirror the
//! implementing type defines, so composition code — and the laws about
//! it — can reason about exactly what each child call did.

use vstd::prelude::*;

use crate::command::CommandInfo;
use crate::keys::Key;
use crate::queue::{IntentView, Queue};

verus! {

/// How far a scrollable pane is asked to move.
#[derive(Clone, Copy, PartialEq, Eq, Structural, Debug)]
pub enum ScrollType {
    Up,
    Down,
    Home,
    End,
    PageUp,
    PageDown,
}

/// A single-step direction.
#[derive(Clone, Copy, PartialEq, Eq, Structural, Debug)]
pub enum Direction {
    Up,
    Down,
}

/// What a component's `commands` reports back to the pump.
#[derive(Clone, Copy, PartialEq, Eq, Structural, Debug)]
pub enum CommandBlocking {
    /// this component (a visible modal) owns the command line; stop
    /// collecting from later siblings
    Blocking,
    /// keep collecting
    PassingOn,
}

/// A `show` that could not be applied, bubbled to the caller; the
/// caller must not partially apply a visibility change.
#[derive(Clone, Copy, PartialEq, Eq, Structural, Debug)]
pub struct ShowError;

/// The contract every UI node implements.
///
/// Each executable method is specified against a spec-level mirror
/// (`event_next`, `commands_of`, …) that the implementing type defines,
/// so a parent knows, from the contract alone, the exact state its
/// child moved to, what it appended, and what it pushed on the bus.
pub trait Component: View + Sized {
    /// The descriptors `commands` contributes for this state.
    spec fn commands_of(&self, force_all: bool) -> Seq<CommandInfo>;

    /// Whether `commands` first clears the collected list, so that
    /// this component's descriptors fully replace everything gathered
    /// before it — a visible modal does, so its commands alone remain;
    /// a full-help listing (`force_all`) never replaces.
    spec fn commands_replace(&self, force_all: bool) -> bool;

    /// Whether `commands` stops further siblings from contributing.
    spec fn commands_blocking(&self) -> CommandBlocking;

    /// Whether `event` consumes this key in this state.
    spec fn event_consumes(&self, ev: Key) -> bool;

    /// The state `event` leaves this component in.
    spec fn event_next(&self, ev: Key) -> Self::V;

    /// The intents `event` appends to the bus, in order.
    spec fn event_pushes(&self, ev: Key) -> Seq<IntentView>;

    /// Whether this component holds input focus.
    spec fn focused_spec(&self) -> bool;

    /// The state after granting or clearing input focus.
    spec fn with_focus(&self, focus: bool) -> Self::V;

    /// Whether this component currently participates in events and
    /// commands.
    spec fn visible_spec(&self) -> bool;

    /// The state `conceal` leaves this component in.
    spec fn hidden_state(&self) -> Self::V;

    /// The state a successful `show` leaves this component in.
    spec fn shown_state(&self) -> Self::V;

    /// Whether `show`'s preconditions are met in this state.
    spec fn show_succeeds(&self) -> bool;

    /// Contributes this component's command descriptors to `out`: a
    /// replacing component (a visible modal under a normal pass)
    /// clears the list first so its commands alone remain, every other
    /// component appends.
    ///
    /// Returns [`CommandBlocking::Blocking`] when later siblings
    /// should be kept from contributing; `force_all` lets a full-help
    /// listing override both the replacement and the blocking.
    fn commands(&self, out: &mut Vec<CommandInfo>, force_all: bool) -> (blocking: CommandBlocking)
        ensures
            final(out)@ == (if self.commands_replace(force_all) {
                Seq::empty()
            } else {
                old(out)@
            }) + self.commands_of(force_all),
            blocking == self.commands_blocking(),
    ;

    /// Consumes one input event; `true` ends propagation.
    fn event(&mut self, ev: Key, queue: &mut Queue) -> (consumed: bool)
        ensures
            consumed == old(self).event_consumes(ev),
            final(self)@ == old(self).event_next(ev),
            final(queue)@ == old(queue)@ + old(self).event_pushes(ev),
    ;

    /// Whether this component holds input focus.
    fn focused(&self) -> (f: bool)
        ensures
            f == self.focused_spec(),
    ;

    /// Grants or clears input focus.
    fn focus(&mut self, focus: bool)
        ensures
            final(self)@ == old(self).with_focus(focus),
    ;

    /// Whether this component currently participates.
    fn is_visible(&self) -> (v: bool)
        ensures
            v == self.visible_spec(),
    ;

    /// Withdraws the component from events and commands.
    fn conceal(&mut self)
        ensures
            final(self)@ == old(self).hidden_state(),
    ;

    /// Makes the component participate again; may fail if its
    /// preconditions are unmet, leaving it unchanged.
    fn show(&mut self) -> (r: Result<(), ShowError>)
        ensures
            r is Ok <==> old(self).show_succeeds(),
            old(self).show_succeeds() ==> final(self)@ == old(self).shown_state(),
            !old(self).show_succeeds() ==> final(self)@ == old(self)@,
    ;

    /// Hides a visible component, else shows it (propagating `show`'s
    /// failure).
    fn toggle_visible(&mut self) -> (r: Result<(), ShowError>)
        ensures
            old(self).visible_spec() ==> r is Ok && final(self)@ == old(self).hidden_state(),
            !old(self).visible_spec() ==> {
                &&& (r is Ok <==> old(self).show_succeeds())
                &&& (old(self).show_succeeds() ==> final(self)@ == old(self).shown_state())
                &&& (!old(self).show_succeeds() ==> final(self)@ == old(self)@)
            },
    ;
}

/// The usual `commands` result for a modal: block siblings exactly when
/// visible.
pub fn visibility_blocking<T: Component>(comp: &T) -> (b: CommandBlocking)
    ensures
        b == (if comp.visible_spec() {
            CommandBlocking::Blocking
        } else {
            CommandBlocking::PassingOn
        }),
{
    if comp.is_visible() {
        CommandBlocking::Blocking
    } else {
        CommandBlocking::PassingOn
    }
}

} // verus!
