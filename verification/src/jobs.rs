//! Client-side handles for background repository queries.
//!
//! The control loop never blocks on a query: it asks a handle to
//! dispatch work, polls the handle's cached last result, and hears of
//! completion through a [`Notification`] tag the host forwards. The
//! host performs the actual repository work and installs each outcome
//! with the handle's `complete` method; everything the core decides is
//! a function of the handle's plain state.
//!
//! A handle debounces: asking again for work that is already in flight
//! changes nothing, so a caller may always request against its current
//! desired parameters without duplicating work.

use vstd::prelude::*;

use crate::changes::{StatusItem, StatusItemView, items_view};

verus! {

/// Which job kind a completion notification is about.
#[derive(Clone, Copy, PartialEq, Eq, Structural, Debug)]
pub enum Notification {
    Diff,
    Status,
    Push,
}

/// What a diff is asked of: a path, on the stage or against the
/// working directory.
#[derive(Debug)]
pub struct DiffParams {
    pub path: String,
    pub stage: bool,
}

/// The mathematical shape of [`DiffParams`].
#[verifier::ext_equal]
pub struct DiffParamsView {
    pub path: Seq<char>,
    pub stage: bool,
}

impl View for DiffParams {
    type V = DiffParamsView;

    open spec fn view(&self) -> DiffParamsView {
        DiffParamsView { path: self.path@, stage: self.stage }
    }
}

/// The text of one file's diff.
#[derive(Debug)]
pub struct FileDiff {
    pub lines: Vec<String>,
}

/// A diff's text, line by line, as character sequences.
pub open spec fn lines_view(lines: Seq<String>) -> Seq<Seq<char>> {
    lines.map_values(|l: String| l@)
}

impl View for FileDiff {
    type V = Seq<Seq<char>>;

    open spec fn view(&self) -> Seq<Seq<char>> {
        lines_view(self.lines@)
    }
}

impl FileDiff {
    /// An equal diff under fresh ownership.
    pub fn duplicate(&self) -> (r: FileDiff)
        ensures
            r@ == self@,
    {
        let mut lines: Vec<String> = Vec::new();
        let mut i: usize = 0;
        while i < self.lines.len()
            invariant
                i <= self.lines@.len(),
                lines@ =~= self.lines@.take(i as int),
            decreases self.lines@.len() - i,
        {
            lines.push(self.lines[i].clone());
            proof {
                assert(lines@ =~= self.lines@.take(i + 1));
            }
            i += 1;
        }
        proof {
            assert(lines@ =~= self.lines@);
        }
        FileDiff { lines }
    }
}

/// The mathematical state of the diff-query handle.
#[verifier::ext_equal]
pub struct DiffJobView {
    pub in_flight: Option<DiffParamsView>,
    pub last_fetch: Option<(DiffParamsView, Seq<Seq<char>>)>,
}

impl DiffJobView {
    /// Whether the cached last result answers `p` exactly.
    pub open spec fn cached_for(self, p: DiffParamsView) -> bool {
        match self.last_fetch {
            Some(l) => l.0 == p,
            None => false,
        }
    }

    /// Whether a fetch for `p` is already in flight.
    pub open spec fn pending_for(self, p: DiffParamsView) -> bool {
        match self.in_flight {
            Some(q) => q == p,
            None => false,
        }
    }

    /// The handle after `request(p)`: nothing changes when the cache
    /// already answers `p` or a fetch for `p` is in flight (the
    /// debounce); otherwise a fresh fetch for `p` is dispatched.
    pub open spec fn request_next(self, p: DiffParamsView) -> DiffJobView {
        if self.cached_for(p) || self.pending_for(p) {
            self
        } else {
            DiffJobView { in_flight: Some(p), ..self }
        }
    }

    /// What `request(p)` hands back: the cached text when it answers
    /// `p` exactly, else nothing yet.
    pub open spec fn request_result(self, p: DiffParamsView) -> Option<Seq<Seq<char>>> {
        match self.last_fetch {
            Some(l) => if l.0 == p {
                Some(l.1)
            } else {
                None
            },
            None => None,
        }
    }

    /// The handle after `refresh()`: the last completed parameters are
    /// fetched anew, so an outside change to the same file is noticed.
    pub open spec fn refresh_next(self) -> DiffJobView {
        match self.last_fetch {
            Some(l) => DiffJobView { in_flight: Some(l.0), ..self },
            None => self,
        }
    }
}

/// The handle of the background diff query.
pub struct DiffJob {
    /// parameters of the fetch in flight, if any
    pub in_flight: Option<DiffParams>,
    /// the most recently completed fetch: its parameters and its text
    pub last_fetch: Option<(DiffParams, FileDiff)>,
}

impl View for DiffJob {
    type V = DiffJobView;

    open spec fn view(&self) -> DiffJobView {
        DiffJobView {
            in_flight: match self.in_flight {
                Some(p) => Some(p@),
                None => None,
            },
            last_fetch: match self.last_fetch {
                Some(l) => Some((l.0@, l.1@)),
                None => None,
            },
        }
    }
}

impl DiffJob {
    /// An idle handle with an empty cache.
    pub fn new() -> (j: DiffJob)
        ensures
            j@ == (DiffJobView { in_flight: None, last_fetch: None }),
    {
        let j = DiffJob { in_flight: None, last_fetch: None };
        proof {
            assert(j@ =~= (DiffJobView { in_flight: None, last_fetch: None }));
        }
        j
    }

    /// Asks for the diff named by `params`.
    ///
    /// `Some` is the cached text for exactly `params`; `None` means a
    /// fetch was dispatched (or was already in flight) and completion
    /// will be notified later.
    pub fn request(&mut self, params: DiffParams) -> (r: Option<FileDiff>)
        ensures
            final(self)@ == old(self)@.request_next(params@),
            match old(self)@.request_result(params@) {
                Some(d) => r matches Some(rd) && rd@ == d,
                None => r is None,
            },
    {
        match &self.last_fetch {
            Some(l) => if l.0.path.eq(&params.path) && l.0.stage == params.stage {
                let d = l.1.duplicate();
                proof {
                    assert(self@ =~= old(self)@.request_next(params@));
                }
                return Some(d);
            },
            None => {},
        }
        match &self.in_flight {
            Some(q) => if q.path.eq(&params.path) && q.stage == params.stage {
                proof {
                    assert(self@ =~= old(self)@.request_next(params@));
                }
                return None;
            },
            None => {},
        }
        self.in_flight = Some(params);
        proof {
            assert(self@ =~= old(self)@.request_next(params@));
        }
        None
    }

    /// Dispatches a fresh fetch for the last completed parameters, if
    /// there are any.
    pub fn refresh(&mut self)
        ensures
            final(self)@ == old(self)@.refresh_next(),
    {
        let again: Option<DiffParams> = match &self.last_fetch {
            Some(l) => Some(DiffParams { path: l.0.path.clone(), stage: l.0.stage }),
            None => None,
        };
        match again {
            Some(p) => {
                self.in_flight = Some(p);
            },
            None => {},
        }
        proof {
            assert(self@ =~= old(self)@.refresh_next());
        }
    }

    /// The most recently completed fetch, independent of what is being
    /// requested now.
    pub fn last(&self) -> (r: Option<(DiffParams, FileDiff)>)
        ensures
            match self@.last_fetch {
                Some(l) => r matches Some(rl) && rl.0@ == l.0 && rl.1@ == l.1,
                None => r is None,
            },
    {
        match &self.last_fetch {
            Some(l) => Some(
                (DiffParams { path: l.0.path.clone(), stage: l.0.stage }, l.1.duplicate()),
            ),
            None => None,
        }
    }

    /// Whether a fetch has been dispatched and not yet completed.
    pub fn is_pending(&self) -> (r: bool)
        ensures
            r == (self@.in_flight is Some),
    {
        self.in_flight.is_some()
    }

    /// Host side: installs a completed fetch. A completion for the
    /// parameters in flight settles them; a stale completion (the
    /// request was superseded) leaves the in-flight marker alone, so
    /// the pending state remains visible until the current request
    /// completes.
    pub fn complete(&mut self, params: DiffParams, diff: FileDiff)
        ensures
            final(self)@.last_fetch == Some((params@, diff@)),
            old(self)@.pending_for(params@) ==> final(self)@.in_flight is None,
            !old(self)@.pending_for(params@) ==> final(self)@.in_flight == old(self)@.in_flight,
    {
        let settled = match &self.in_flight {
            Some(q) => q.path.eq(&params.path) && q.stage == params.stage,
            None => false,
        };
        if settled {
            self.in_flight = None;
        }
        self.last_fetch = Some((params, diff));
    }
}

/// Which listing a status query scans.
#[derive(Clone, Copy, PartialEq, Eq, Structural, Debug)]
pub enum StatusType {
    WorkingDir,
    Stage,
}

/// What a status query is asked for.
#[derive(Clone, Copy, PartialEq, Eq, Structural, Debug)]
pub struct StatusParams {
    pub status_type: StatusType,
}

impl StatusParams {
    pub fn new(status_type: StatusType) -> (p: StatusParams)
        ensures
            p.status_type == status_type,
    {
        StatusParams { status_type }
    }
}

/// An equal listing under fresh ownership.
pub fn duplicate_items(items: &Vec<StatusItem>) -> (r: Vec<StatusItem>)
    ensures
        items_view(r@) == items_view(items@),
{
    let mut out: Vec<StatusItem> = Vec::new();
    let mut i: usize = 0;
    while i < items.len()
        invariant
            i <= items@.len(),
            out@.len() == i,
            forall|k: int| 0 <= k < i ==> #[trigger] out@[k]@ == items@[k]@,
        decreases items@.len() - i,
    {
        let it = &items[i];
        out.push(StatusItem { path: it.path.clone(), kind: it.kind });
        i += 1;
    }
    proof {
        assert forall|k: int| 0 <= k < items@.len() implies items_view(out@)[k] == items_view(
            items@,
        )[k] by {
            assert(items_view(out@)[k] == out@[k]@);
            assert(items_view(items@)[k] == items@[k]@);
        }
        assert(items_view(out@) =~= items_view(items@));
    }
    out
}

/// The mathematical state of a status-scan handle.
#[verifier::ext_equal]
pub struct StatusJobView {
    pub in_flight: bool,
    pub params: StatusParams,
    pub last_items: Seq<StatusItemView>,
}

/// The handle of one background status scan (working directory or
/// stage).
pub struct StatusJob {
    /// whether a scan is in flight
    pub in_flight: bool,
    /// what the scan is asked for
    pub params: StatusParams,
    /// the most recently completed listing
    pub last_items: Vec<StatusItem>,
}

impl View for StatusJob {
    type V = StatusJobView;

    open spec fn view(&self) -> StatusJobView {
        StatusJobView {
            in_flight: self.in_flight,
            params: self.params,
            last_items: items_view(self.last_items@),
        }
    }
}

impl StatusJob {
    /// An idle handle with an empty listing.
    pub fn new(status_type: StatusType) -> (j: StatusJob)
        ensures
            j@ == (StatusJobView {
                in_flight: false,
                params: StatusParams { status_type },
                last_items: Seq::empty(),
            }),
    {
        let j = StatusJob {
            in_flight: false,
            params: StatusParams { status_type },
            last_items: Vec::new(),
        };
        proof {
            assert(j@ =~= (StatusJobView {
                in_flight: false,
                params: StatusParams { status_type },
                last_items: Seq::empty(),
            }));
        }
        j
    }

    /// Fire-and-forget: dispatches a scan for `params`; completion is
    /// notified later.
    pub fn fetch(&mut self, params: StatusParams)
        ensures
            final(self)@ == (StatusJobView { in_flight: true, params, ..old(self)@ }),
    {
        self.in_flight = true;
        self.params = params;
        proof {
            assert(self@ =~= (StatusJobView { in_flight: true, params, ..old(self)@ }));
        }
    }

    /// The most recently completed listing.
    pub fn last(&self) -> (r: Vec<StatusItem>)
        ensures
            items_view(r@) == self@.last_items,
    {
        duplicate_items(&self.last_items)
    }

    /// Whether a scan has been dispatched and not yet completed.
    pub fn is_pending(&self) -> (r: bool)
        ensures
            r == self@.in_flight,
    {
        self.in_flight
    }

    /// Host side: installs a completed listing.
    pub fn complete(&mut self, items: Vec<StatusItem>)
        ensures
            final(self)@ == (StatusJobView {
                in_flight: false,
                last_items: items_view(items@),
                ..old(self)@
            }),
    {
        self.in_flight = false;
        self.last_items = items;
        proof {
            assert(self@ =~= (StatusJobView {
                in_flight: false,
                last_items: items_view(items@),
                ..old(self)@
            }));
        }
    }
}

/// What a push asks for.
#[derive(Debug)]
pub struct PushRequest {
    pub remote: String,
    pub branch: String,
}

/// The mathematical state of the push handle.
#[verifier::ext_equal]
pub struct PushJobView {
    pub in_flight: bool,
    pub last_request: Option<(Seq<char>, Seq<char>)>,
    pub last_error: Option<Seq<char>>,
}

/// The handle of the background push.
pub struct PushJob {
    /// whether a push is in flight
    pub in_flight: bool,
    /// what the push in flight (or the last one) was asked for; the
    /// host reads it to perform the work
    pub last_request: Option<PushRequest>,
    /// the error message of the last completed push, if it failed
    pub last_error: Option<String>,
}

impl View for PushJob {
    type V = PushJobView;

    open spec fn view(&self) -> PushJobView {
        PushJobView {
            in_flight: self.in_flight,
            last_request: match self.last_request {
                Some(r) => Some((r.remote@, r.branch@)),
                None => None,
            },
            last_error: match self.last_error {
                Some(e) => Some(e@),
                None => None,
            },
        }
    }
}

impl PushJob {
    /// An idle handle that has never failed.
    pub fn new() -> (j: PushJob)
        ensures
            j@ == (PushJobView { in_flight: false, last_request: None, last_error: None }),
    {
        let j = PushJob { in_flight: false, last_request: None, last_error: None };
        proof {
            assert(j@ =~= (PushJobView { in_flight: false, last_request: None, last_error: None }));
        }
        j
    }

    /// Fire-and-forget: dispatches the push; completion is notified
    /// later.
    pub fn request(&mut self, req: PushRequest)
        ensures
            final(self)@ == (PushJobView {
                in_flight: true,
                last_request: Some((req.remote@, req.branch@)),
                ..old(self)@
            }),
    {
        self.in_flight = true;
        self.last_request = Some(req);
        proof {
            assert(self@ =~= (PushJobView {
                in_flight: true,
                last_request: Some((req.remote@, req.branch@)),
                ..old(self)@
            }));
        }
    }

    /// Whether the push is still running.
    pub fn is_pending(&self) -> (r: bool)
        ensures
            r == self@.in_flight,
    {
        self.in_flight
    }

    /// The error of the most recently completed push, if it failed.
    pub fn last_result(&self) -> (r: Option<String>)
        ensures
            match self@.last_error {
                Some(e) => r matches Some(re) && re@ == e,
                None => r is None,
            },
    {
        match &self.last_error {
            Some(e) => Some(e.clone()),
            None => None,
        }
    }

    /// Host side: installs the outcome of the completed push.
    pub fn complete(&mut self, error: Option<String>)
        ensures
            final(self)@ == (PushJobView {
                in_flight: false,
                last_error: match error {
                    Some(e) => Some(e@),
                    None => None::<Seq<char>>,
                },
                ..old(self)@
            }),
    {
        self.in_flight = false;
        self.last_error = error;
        proof {
            assert(self@ =~= (PushJobView {
                in_flight: false,
                last_error: match error {
                    Some(e) => Some(e@),
                    None => None::<Seq<char>>,
                },
                ..old(self)@
            }));
        }
    }
}

} // verus!
