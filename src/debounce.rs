//! Coalescing of raw events into one change per burst.
//!
//! A window opens at the first event since the last fire. It fires when no
//! event came for the quiet period, or when it has been open for the hard
//! maximum, so that a steady stream of writes cannot starve the runs. An
//! error fires at once, on its own, without waiting for the window.
use vstd::prelude::*;
use crate::event::{excluded, is_excluded, string_views, EventKind, RawEvent, RawEventView};

verus! {

/// The quiet period after the last event before a window fires, in milliseconds.
pub const DEFAULT_QUIET_MS: u64 = 300;

/// The longest a window stays open under a steady stream of events, in milliseconds.
pub const DEFAULT_MAX_WINDOW_MS: u64 = 2000;

/// One change that came out of a window: the distinct affected paths, in the
/// order first seen, and whether it is worth a run.
#[derive(Debug)]
pub struct CoalescedChange {
    pub paths: Vec<String>,
    pub qualifies: bool,
    /// The change reports a failed watch, not a change of files.
    pub error: bool,
}

/// What a coalesced change says, as plain values.
pub struct ChangeView {
    pub paths: Seq<Seq<char>>,
    pub qualifies: bool,
    pub error: bool,
}

impl View for CoalescedChange {
    type V = ChangeView;

    open spec fn view(&self) -> ChangeView {
        ChangeView { paths: string_views(self.paths@), qualifies: self.qualifies, error: self.error }
    }
}

/// What the debouncer made of an event or of the passing of time.
#[derive(Debug)]
pub enum Decision {
    /// Nothing to dispatch yet.
    Buffered,
    /// Dispatch this change.
    ReadyToFire(CoalescedChange),
}

/// What a decision says, as plain values.
pub enum DecisionView {
    Buffered,
    ReadyToFire(ChangeView),
}

impl View for Decision {
    type V = DecisionView;

    open spec fn view(&self) -> DecisionView {
        match self {
            Decision::Buffered => DecisionView::Buffered,
            Decision::ReadyToFire(c) => DecisionView::ReadyToFire(c@),
        }
    }
}

/// The state of a debouncer: its two durations, in milliseconds, and the
/// window that is open, if any.
pub struct Debouncer {
    quiet_ms: u64,
    max_window_ms: u64,
    open: bool,
    paths: Vec<String>,
    qualifies: bool,
    first_ts: u64,
    last_ts: u64,
}

/// The state of a debouncer, as plain values.
pub struct DebouncerView {
    pub quiet: u64,
    pub max_window: u64,
    pub open: bool,
    pub paths: Seq<Seq<char>>,
    pub qualifies: bool,
    pub first: u64,
    pub last: u64,
}

impl View for Debouncer {
    type V = DebouncerView;

    closed spec fn view(&self) -> DebouncerView {
        DebouncerView {
            quiet: self.quiet_ms,
            max_window: self.max_window_ms,
            open: self.open,
            paths: string_views(self.paths@),
            qualifies: self.qualifies,
            first: self.first_ts,
            last: self.last_ts,
        }
    }
}

/// `paths` with `p` added at the end unless it is there already.
pub open spec fn add_path(paths: Seq<Seq<char>>, p: Seq<char>) -> Seq<Seq<char>> {
    if paths.contains(p) { paths } else { paths.push(p) }
}

/// A state whose window, when closed, holds nothing, and whose paths are distinct.
pub open spec fn debouncer_wf(d: DebouncerView) -> bool {
    &&& d.paths.no_duplicates()
    &&& !d.open ==> d.paths.len() == 0 && !d.qualifies
}

/// The window holds event `e`: it opens with it, or takes in its path and its time.
pub open spec fn absorb(d: DebouncerView, e: RawEventView) -> DebouncerView {
    if d.open {
        DebouncerView {
            paths: add_path(d.paths, e.path),
            qualifies: d.qualifies || !excluded(e.kind),
            last: e.timestamp,
            ..d
        }
    } else {
        DebouncerView {
            open: true,
            paths: seq![e.path],
            qualifies: !excluded(e.kind),
            first: e.timestamp,
            last: e.timestamp,
            ..d
        }
    }
}

/// The window fires: the change it holds, and a closed window.
pub open spec fn fire(d: DebouncerView) -> (DebouncerView, DecisionView) {
    (
        DebouncerView { open: false, paths: Seq::empty(), qualifies: false, ..d },
        DecisionView::ReadyToFire(ChangeView { paths: d.paths, qualifies: d.qualifies, error: false }),
    )
}

/// No event came for the quiet period up to time `now`.
pub open spec fn quiet_elapsed(d: DebouncerView, now: u64) -> bool {
    d.open && now >= d.last + d.quiet
}

/// The window has been open for the hard maximum at time `now`.
pub open spec fn window_full(d: DebouncerView, now: u64) -> bool {
    d.open && now >= d.first + d.max_window
}

/// The decision on event `e`. An error fires on its own and leaves the
/// window as it was. An event after the quiet period fires the window before
/// it and opens the next one. Otherwise the event joins the window, which
/// fires if it has reached the hard maximum.
pub open spec fn accept_spec(d: DebouncerView, e: RawEventView) -> (DebouncerView, DecisionView) {
    if e.kind is Error {
        (d, DecisionView::ReadyToFire(ChangeView { paths: seq![e.path], qualifies: false, error: true }))
    } else if quiet_elapsed(d, e.timestamp) {
        (absorb(fire(d).0, e), fire(d).1)
    } else if window_full(absorb(d, e), e.timestamp) {
        fire(absorb(d, e))
    } else {
        (absorb(d, e), DecisionView::Buffered)
    }
}

/// The decision at time `now` with no new event.
pub open spec fn poll_spec(d: DebouncerView, now: u64) -> (DebouncerView, DecisionView) {
    if quiet_elapsed(d, now) || window_full(d, now) {
        fire(d)
    } else {
        (d, DecisionView::Buffered)
    }
}

impl Debouncer {
    /// A debouncer with no window open.
    pub fn new(quiet_ms: u64, max_window_ms: u64) -> (r: Debouncer)
        ensures
            r@ == (DebouncerView {
                quiet: quiet_ms,
                max_window: max_window_ms,
                open: false,
                paths: Seq::empty(),
                qualifies: false,
                first: 0,
                last: 0,
            }),
            debouncer_wf(r@),
    {
        let r = Debouncer {
            quiet_ms,
            max_window_ms,
            open: false,
            paths: Vec::new(),
            qualifies: false,
            first_ts: 0,
            last_ts: 0,
        };
        assert(r@.paths =~= Seq::<Seq<char>>::empty());
        r
    }

    /// Whether a window is open.
    pub fn is_open(&self) -> (r: bool)
        ensures
            r == self@.open,
    {
        self.open
    }

    fn take_change(&mut self) -> (r: CoalescedChange)
        requires
            debouncer_wf(old(self)@),
        ensures
            final(self)@ == fire(old(self)@).0,
            DecisionView::ReadyToFire(r@) == fire(old(self)@).1,
            debouncer_wf(final(self)@),
    {
        let mut paths: Vec<String> = Vec::new();
        std::mem::swap(&mut paths, &mut self.paths);
        let r = CoalescedChange { paths, qualifies: self.qualifies, error: false };
        self.open = false;
        self.qualifies = false;
        assert(self@.paths =~= Seq::<Seq<char>>::empty());
        r
    }

    fn contains_path(&self, p: &String) -> (r: bool)
        ensures
            r == self@.paths.contains(p@),
    {
        let mut i: usize = 0;
        while i < self.paths.len()
            invariant
                i <= self.paths@.len(),
                forall|j: int| 0 <= j < i ==> self@.paths[j] != p@,
            decreases self.paths.len() - i,
        {
            if self.paths[i] == *p {
                assert(self@.paths[i as int] == p@);
                return true;
            }
            i = i + 1;
        }
        false
    }

    fn absorb_event(&mut self, e: RawEvent)
        requires
            debouncer_wf(old(self)@),
        ensures
            final(self)@ == absorb(old(self)@, e@),
            debouncer_wf(final(self)@),
    {
        let q = !is_excluded(e.kind);
        if self.open {
            if !self.contains_path(&e.path) {
                let ghost old_paths = self.paths@;
                self.paths.push(e.path);
                assert(string_views(self.paths@) =~= string_views(old_paths).push(e@.path));
            }
            self.qualifies = self.qualifies || q;
            self.last_ts = e.timestamp;
        } else {
            self.open = true;
            self.paths = Vec::new();
            self.paths.push(e.path);
            assert(string_views(self.paths@) =~= seq![e@.path]);
            self.qualifies = q;
            self.first_ts = e.timestamp;
            self.last_ts = e.timestamp;
        }
    }

    fn quiet_elapsed_at(&self, now: u64) -> (r: bool)
        ensures
            r == quiet_elapsed(self@, now),
    {
        self.open && now >= self.last_ts && now - self.last_ts >= self.quiet_ms
    }

    fn window_full_at(&self, now: u64) -> (r: bool)
        ensures
            r == window_full(self@, now),
    {
        self.open && now >= self.first_ts && now - self.first_ts >= self.max_window_ms
    }

    /// Takes in one raw event.
    pub fn accept(&mut self, e: RawEvent) -> (r: Decision)
        requires
            debouncer_wf(old(self)@),
        ensures
            (final(self)@, r@) == accept_spec(old(self)@, e@),
            debouncer_wf(final(self)@),
    {
        if e.kind == EventKind::Error {
            let mut paths: Vec<String> = Vec::new();
            let ghost ev = e@;
            paths.push(e.path);
            assert(string_views(paths@) =~= seq![ev.path]);
            return Decision::ReadyToFire(CoalescedChange { paths, qualifies: false, error: true });
        }
        if self.quiet_elapsed_at(e.timestamp) {
            let c = self.take_change();
            self.absorb_event(e);
            return Decision::ReadyToFire(c);
        }
        let ts = e.timestamp;
        self.absorb_event(e);
        if self.window_full_at(ts) {
            Decision::ReadyToFire(self.take_change())
        } else {
            Decision::Buffered
        }
    }

    /// Looks at the clock with no new event: fires the window if the quiet
    /// period has passed or it has been open for the hard maximum.
    pub fn poll(&mut self, now: u64) -> (r: Decision)
        requires
            debouncer_wf(old(self)@),
        ensures
            (final(self)@, r@) == poll_spec(old(self)@, now),
            debouncer_wf(final(self)@),
    {
        if self.quiet_elapsed_at(now) || self.window_full_at(now) {
            Decision::ReadyToFire(self.take_change())
        } else {
            Decision::Buffered
        }
    }
}

/// The state and the decisions after taking in `es` in order, from `d`.
pub open spec fn feed(d: DebouncerView, es: Seq<RawEventView>) -> (DebouncerView, Seq<DecisionView>)
    decreases es.len(),
{
    if es.len() == 0 {
        (d, Seq::empty())
    } else {
        let (d1, ds) = feed(d, es.drop_last());
        let (d2, x) = accept_spec(d1, es.last());
        (d2, ds.push(x))
    }
}

/// A burst: events that are no errors, each within the quiet period of the
/// one before, in order of time, and all within the hard maximum of the first.
pub open spec fn is_burst(es: Seq<RawEventView>, quiet: u64, max_window: u64) -> bool {
    &&& es.len() > 0
    &&& forall|i: int| 0 <= i < es.len() ==> !(#[trigger] es[i].kind is Error)
    &&& forall|i: int| 0 < i < es.len() ==> es[i - 1].timestamp <= #[trigger] es[i].timestamp
        && es[i].timestamp < es[i - 1].timestamp + quiet
    &&& forall|i: int| 0 <= i < es.len() ==> #[trigger] es[i].timestamp < es[0].timestamp + max_window
}

/// The paths that the events `es` touch.
pub open spec fn affected_paths(es: Seq<RawEventView>) -> Set<Seq<char>> {
    es.map_values(|e: RawEventView| e.path).to_set()
}

/// Some event of `es` is of a kind worth a run.
pub open spec fn any_qualifying(es: Seq<RawEventView>) -> bool {
    exists|i: int| 0 <= i < es.len() && !excluded(#[trigger] es[i].kind)
}

proof fn lemma_burst_buffers(d: DebouncerView, es: Seq<RawEventView>)
    requires
        debouncer_wf(d),
        !d.open,
        is_burst(es, d.quiet, d.max_window),
    ensures
        debouncer_wf(feed(d, es).0),
        feed(d, es).0.open,
        feed(d, es).0.quiet == d.quiet,
        feed(d, es).0.max_window == d.max_window,
        feed(d, es).0.first == es[0].timestamp,
        feed(d, es).0.last == es.last().timestamp,
        feed(d, es).0.paths.to_set() == affected_paths(es),
        feed(d, es).0.qualifies == any_qualifying(es),
        feed(d, es).1.len() == es.len(),
        forall|i: int| 0 <= i < es.len() ==> #[trigger] feed(d, es).1[i] is Buffered,
    decreases es.len(),
{
    let pre = es.drop_last();
    let e = es.last();
    if es.len() == 1 {
        assert(es.map_values(|e: RawEventView| e.path) =~= seq![e.path]);
        assert(seq![e.path].to_set() =~= Seq::<Seq<char>>::empty().push(e.path).to_set());
        Seq::<Seq<char>>::empty().lemma_push_to_set_commute(e.path);
        if !excluded(e.kind) {
            assert(!excluded(es[0].kind));
        }
    } else {
        assert(pre[0] == es[0]);
        assert forall|i: int| 0 < i < pre.len() implies pre[i - 1].timestamp <= #[trigger] pre[i].timestamp
            && pre[i].timestamp < pre[i - 1].timestamp + d.quiet by {
            assert(pre[i] == es[i] && pre[i - 1] == es[i - 1]);
        }
        assert forall|i: int| 0 <= i < pre.len() implies #[trigger] pre[i].timestamp < pre[0].timestamp + d.max_window by {
            assert(pre[i] == es[i]);
        }
        assert forall|i: int| 0 <= i < pre.len() implies !(#[trigger] pre[i].kind is Error) by {
            assert(pre[i] == es[i]);
        }
        lemma_burst_buffers(d, pre);
        let f = feed(d, pre).0;
        assert(es[es.len() - 1] == e);
        assert(es[es.len() - 2] == pre.last());
        assert(!window_full(absorb(f, e), e.timestamp));
        assert(es.map_values(|e: RawEventView| e.path) =~= pre.map_values(|e: RawEventView| e.path).push(e.path));
        pre.map_values(|e: RawEventView| e.path).lemma_push_to_set_commute(e.path);
        if f.paths.contains(e.path) {
            assert(f.paths.to_set().insert(e.path) =~= f.paths.to_set());
        } else {
            f.paths.lemma_push_to_set_commute(e.path);
        }
        if any_qualifying(pre) {
            let i = choose|i: int| 0 <= i < pre.len() && !excluded(#[trigger] pre[i].kind);
            assert(es[i] == pre[i]);
        }
        if any_qualifying(es) && !any_qualifying(pre) {
            let i = choose|i: int| 0 <= i < es.len() && !excluded(#[trigger] es[i].kind);
            if i < pre.len() {
                assert(es[i] == pre[i]);
            }
        }
        if !excluded(e.kind) {
            assert(!excluded(es[es.len() - 1].kind));
        }
        assert forall|i: int| 0 <= i < es.len() implies #[trigger] feed(d, es).1[i] is Buffered by {
            if i < pre.len() {
                assert(feed(d, es).1[i] == feed(d, pre).1[i]);
            }
        }
    }
}

/// A burst of events that ends in silence for the quiet period comes out as
/// exactly one change: every event is buffered, and the window then fires
/// once, with each affected path once and nothing else, qualifying exactly
/// when some event was worth a run.
pub proof fn lemma_burst_coalesces(d: DebouncerView, es: Seq<RawEventView>, now: u64)
    requires
        debouncer_wf(d),
        !d.open,
        is_burst(es, d.quiet, d.max_window),
        now >= es.last().timestamp + d.quiet,
    ensures
        forall|i: int| 0 <= i < es.len() ==> #[trigger] feed(d, es).1[i] is Buffered,
        poll_spec(feed(d, es).0, now).1 is ReadyToFire,
        poll_spec(feed(d, es).0, now).1->ReadyToFire_0.paths.to_set() == affected_paths(es),
        poll_spec(feed(d, es).0, now).1->ReadyToFire_0.paths.no_duplicates(),
        poll_spec(feed(d, es).0, now).1->ReadyToFire_0.qualifies == any_qualifying(es),
        !poll_spec(feed(d, es).0, now).1->ReadyToFire_0.error,
        !poll_spec(feed(d, es).0, now).0.open,
{
    lemma_burst_buffers(d, es);
}

} // verus!
