//! The internal vocabulary of file-change events, and how the notification
//! backend's kinds map onto it.
use vstd::prelude::*;

verus! {

/// The kind of one raw file-change event.
#[derive(Clone, Copy, Debug, PartialEq, Eq, Structural)]
pub enum EventKind {
    Created,
    Modified,
    Removed,
    /// The old name of a rename whose two halves were reported together.
    RenamedFrom,
    /// The new name of a rename whose two halves were reported together.
    RenamedTo,
    /// Only the access time changed, or the file was only read.
    Accessed,
    /// The backend could not say what happened.
    Unclassified,
    /// The watch on this path failed (removed mid-watch, permission revoked).
    Error,
}

/// One file-change event on one path, with its time in milliseconds.
#[derive(Debug)]
pub struct RawEvent {
    pub path: String,
    pub kind: EventKind,
    pub timestamp: u64,
}

/// What a raw event says, as plain values.
pub struct RawEventView {
    pub path: Seq<char>,
    pub kind: EventKind,
    pub timestamp: u64,
}

impl View for RawEvent {
    type V = RawEventView;

    open spec fn view(&self) -> RawEventView {
        RawEventView { path: self.path@, kind: self.kind, timestamp: self.timestamp }
    }
}

/// The views of a sequence of strings.
pub open spec fn string_views(v: Seq<String>) -> Seq<Seq<char>> {
    v.map_values(|s: String| s@)
}

/// Kinds that never make a change worth a run on their own.
pub open spec fn excluded(k: EventKind) -> bool {
    k is Accessed || k is Unclassified
}

/// Whether events of kind `k` are never worth a run on their own.
pub fn is_excluded(k: EventKind) -> (r: bool)
    ensures
        r == excluded(k),
{
    match k {
        EventKind::Accessed | EventKind::Unclassified => true,
        _ => false,
    }
}

/// The kinds that the notification backend reports.
#[derive(Clone, Copy, Debug, PartialEq, Eq, Structural)]
pub enum NativeKind {
    /// The backend did not say.
    Any,
    /// A file was opened, read or closed.
    Access,
    Create,
    Remove,
    /// The contents changed.
    ModifyData,
    /// Only the access time changed.
    ModifyAccessTime,
    /// Other metadata changed (permissions, owner, write time).
    ModifyMetadata,
    /// A rename of which only the old name was seen.
    RenameFrom,
    /// A rename of which only the new name was seen.
    RenameTo,
    /// A rename reported with both names, old first.
    RenameBoth,
    /// A modification of no more precise kind, a rename included.
    ModifyOther,
    /// Something else.
    Other,
}

/// The internal kind of each path of a native event of kind `k` that is not
/// a rename with both halves: a lone half of a rename is reported as the
/// removal or creation it looks like, since pairing it would be a guess.
pub open spec fn kind_of(k: NativeKind) -> EventKind {
    match k {
        NativeKind::Any => EventKind::Unclassified,
        NativeKind::Other => EventKind::Unclassified,
        NativeKind::Access => EventKind::Accessed,
        NativeKind::ModifyAccessTime => EventKind::Accessed,
        NativeKind::Create => EventKind::Created,
        NativeKind::RenameTo => EventKind::Created,
        NativeKind::Remove => EventKind::Removed,
        NativeKind::RenameFrom => EventKind::Removed,
        _ => EventKind::Modified,
    }
}

/// Whether a native event is a rename with both halves: kind `RenameBoth`
/// with exactly the old and the new path.
pub open spec fn is_rename_pair(k: NativeKind, n: nat) -> bool {
    k is RenameBoth && n == 2
}

/// The raw events that one native event normalizes to: a rename pair gives
/// its two halves; any other event gives one event per path, of one kind.
pub open spec fn normalize_spec(k: NativeKind, paths: Seq<Seq<char>>, timestamp: u64) -> Seq<RawEventView> {
    if is_rename_pair(k, paths.len()) {
        seq![
            RawEventView { path: paths[0], kind: EventKind::RenamedFrom, timestamp },
            RawEventView { path: paths[1], kind: EventKind::RenamedTo, timestamp },
        ]
    } else {
        Seq::new(paths.len(), |i: int| RawEventView { path: paths[i], kind: kind_of(k), timestamp })
    }
}

/// The internal kind for a native kind that is not a rename pair.
pub fn classify(k: NativeKind) -> (r: EventKind)
    ensures
        r == kind_of(k),
{
    match k {
        NativeKind::Any | NativeKind::Other => EventKind::Unclassified,
        NativeKind::Access | NativeKind::ModifyAccessTime => EventKind::Accessed,
        NativeKind::Create | NativeKind::RenameTo => EventKind::Created,
        NativeKind::Remove | NativeKind::RenameFrom => EventKind::Removed,
        _ => EventKind::Modified,
    }
}

/// The views of a sequence of raw events.
pub open spec fn event_views(v: Seq<RawEvent>) -> Seq<RawEventView> {
    v.map_values(|e: RawEvent| e@)
}

/// Turns one native event on `paths` at time `timestamp` into raw events.
pub fn normalize(k: NativeKind, paths: Vec<String>, timestamp: u64) -> (r: Vec<RawEvent>)
    ensures
        event_views(r@) == normalize_spec(k, string_views(paths@), timestamp),
{
    let ghost pv = string_views(paths@);
    let mut r: Vec<RawEvent> = Vec::new();
    if k == NativeKind::RenameBoth && paths.len() == 2 {
        r.push(RawEvent { path: paths[0].clone(), kind: EventKind::RenamedFrom, timestamp });
        r.push(RawEvent { path: paths[1].clone(), kind: EventKind::RenamedTo, timestamp });
        assert(event_views(r@) =~= normalize_spec(k, pv, timestamp));
        return r;
    }
    let kind = classify(k);
    let mut i: usize = 0;
    while i < paths.len()
        invariant
            i <= paths.len(),
            r@.len() == i,
            kind == kind_of(k),
            !is_rename_pair(k, paths@.len()),
            pv == string_views(paths@),
            event_views(r@) =~= normalize_spec(k, pv, timestamp).take(i as int),
        decreases paths.len() - i,
    {
        let path = paths[i].clone();
        assert(pv[i as int] == path@);
        r.push(RawEvent { path, kind, timestamp });
        assert(event_views(r@) =~= normalize_spec(k, pv, timestamp).take(i + 1));
        i = i + 1;
    }
    assert(normalize_spec(k, pv, timestamp).take(i as int) =~= normalize_spec(k, pv, timestamp));
    r
}

/// The event that reports a failed watch on `path`.
pub fn error_event(path: String, timestamp: u64) -> (r: RawEvent)
    ensures
        r@ == (RawEventView { path: path@, kind: EventKind::Error, timestamp }),
{
    RawEvent { path, kind: EventKind::Error, timestamp }
}

} // verus!
