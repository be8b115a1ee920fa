//! The event bus: an ordered, append-only-until-drained queue of
//! cross-cutting application intents.
//!
//! Any component may append; exactly one external consumer (the host's
//! main loop) drains it in FIFO order once per loop tick. There is no
//! priority and no deduplication — FIFO order is a correctness
//! requirement (e.g. "reset file" must precede "refresh status").

use vstd::prelude::*;

verus! {

/// A path whose working-directory changes are to be discarded, carried
/// by the confirmation intent.
#[derive(Clone, Debug)]
pub struct ResetItem {
    pub path: String,
}

/// One cross-cutting intent, produced by a component and dispatched by
/// the host's main loop.
#[derive(Clone, Debug)]
pub enum InternalEvent {
    /// surface a non-fatal, human-readable error message
    ShowErrorMsg(String),
    /// open an external editor, optionally on a path
    OpenExternalEditor(Option<String>),
    /// open the branch-creation dialog
    CreateBranch,
    /// push the named ref
    Push(String),
    /// ask the user to confirm discarding a path's changes
    ConfirmResetItem(ResetItem),
}

/// The mathematical shape of an [`InternalEvent`]: the same tags over
/// character sequences, so contracts can state exactly which intents a
/// call appends.
pub enum IntentView {
    ShowErrorMsg(Seq<char>),
    OpenExternalEditor(Option<Seq<char>>),
    CreateBranch,
    Push(Seq<char>),
    ConfirmResetItem(Seq<char>),
}

impl View for InternalEvent {
    type V = IntentView;

    open spec fn view(&self) -> IntentView {
        match self {
            InternalEvent::ShowErrorMsg(m) => IntentView::ShowErrorMsg(m@),
            InternalEvent::OpenExternalEditor(p) => IntentView::OpenExternalEditor(
                match p {
                    Some(p) => Some(p@),
                    None => None,
                },
            ),
            InternalEvent::CreateBranch => IntentView::CreateBranch,
            InternalEvent::Push(branch) => IntentView::Push(branch@),
            InternalEvent::ConfirmResetItem(r) => IntentView::ConfirmResetItem(r.path@),
        }
    }
}

/// The shared FIFO of pending intents.
///
/// The host creates one at startup, threads a handle through the
/// component constructors' call sites, and is the only consumer.
#[derive(Debug)]
pub struct Queue {
    items: Vec<InternalEvent>,
}

impl View for Queue {
    type V = Seq<IntentView>;

    closed spec fn view(&self) -> Seq<IntentView> {
        self.items@.map_values(|e: InternalEvent| e@)
    }
}

impl Queue {
    /// An empty bus.
    pub fn new() -> (q: Queue)
        ensures
            q@ == Seq::<IntentView>::empty(),
    {
        let q = Queue { items: Vec::new() };
        proof {
            assert(q@ =~= Seq::<IntentView>::empty());
        }
        q
    }

    /// How many intents are pending.
    pub fn len(&self) -> (n: usize)
        ensures
            n == self@.len(),
    {
        self.items.len()
    }

    /// Non-blocking append at the back.
    pub fn push_back(&mut self, ev: InternalEvent)
        ensures
            final(self)@ == old(self)@ + seq![ev@],
    {
        self.items.push(ev);
        proof {
            assert(self@ =~= old(self)@ + seq![ev@]);
        }
    }

    /// The consumer side: the oldest pending intent, or `None` once the
    /// bus is drained.
    pub fn pop_front(&mut self) -> (ev: Option<InternalEvent>)
        ensures
            old(self)@.len() == 0 ==> ev is None && final(self)@ == old(self)@,
            old(self)@.len() > 0 ==> {
                &&& ev matches Some(e) && e@ == old(self)@[0]
                &&& final(self)@ == old(self)@.drop_first()
            },
    {
        if self.items.len() == 0 {
            None
        } else {
            let e = self.items.remove(0);
            proof {
                assert(self@ =~= old(self)@.drop_first());
            }
            Some(e)
        }
    }
}

} // verus!
