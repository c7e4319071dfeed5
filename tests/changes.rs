use entr::debounce::{CoalescedChange, Debouncer, Decision};
use entr::event::{classify, error_event, normalize, EventKind, NativeKind, RawEvent};
use entr::watch::{Recovery, RetryPolicy};

fn ev(path: &str, kind: EventKind, t: u64) -> RawEvent {
    RawEvent { path: path.to_string(), kind, timestamp: t }
}

fn fired(d: Decision) -> CoalescedChange {
    match d {
        Decision::ReadyToFire(c) => c,
        Decision::Buffered => panic!("expected a change"),
    }
}

fn buffered(d: &Decision) -> bool {
    matches!(d, Decision::Buffered)
}

#[test]
fn burst_coalesces_into_one_change() {
    let mut d = Debouncer::new(100, 1000);
    assert!(buffered(&d.accept(ev("src/a.txt", EventKind::Modified, 0))));
    assert!(buffered(&d.accept(ev("src/.a.swp", EventKind::Created, 30))));
    assert!(buffered(&d.accept(ev("src/a.txt", EventKind::Modified, 60))));
    assert!(buffered(&d.poll(120)));
    let c = fired(d.poll(160));
    assert_eq!(c.paths, vec!["src/a.txt".to_string(), "src/.a.swp".to_string()]);
    assert!(c.qualifies);
    assert!(!c.error);
    assert!(!d.is_open());
    assert!(buffered(&d.poll(10_000)));
}

#[test]
fn access_only_burst_does_not_qualify() {
    let mut d = Debouncer::new(100, 1000);
    assert!(buffered(&d.accept(ev("a", EventKind::Accessed, 0))));
    assert!(buffered(&d.accept(ev("b", EventKind::Unclassified, 10))));
    let c = fired(d.poll(110));
    assert!(!c.qualifies);
}

#[test]
fn error_fires_at_once() {
    let mut d = Debouncer::new(100, 1000);
    assert!(buffered(&d.accept(ev("a", EventKind::Modified, 0))));
    let c = fired(d.accept(error_event("gone".to_string(), 5)));
    assert!(c.error);
    assert!(!c.qualifies);
    assert_eq!(c.paths, vec!["gone".to_string()]);
    assert!(d.is_open());
    let c = fired(d.poll(100));
    assert_eq!(c.paths, vec!["a".to_string()]);
}

#[test]
fn hard_maximum_stops_starvation() {
    let mut d = Debouncer::new(100, 250);
    assert!(buffered(&d.accept(ev("a", EventKind::Modified, 0))));
    assert!(buffered(&d.accept(ev("a", EventKind::Modified, 90))));
    assert!(buffered(&d.accept(ev("a", EventKind::Modified, 180))));
    let c = fired(d.accept(ev("b", EventKind::Modified, 260)));
    assert_eq!(c.paths, vec!["a".to_string(), "b".to_string()]);
    assert!(!d.is_open());
}

#[test]
fn late_event_fires_the_window_before_it() {
    let mut d = Debouncer::new(100, 1000);
    assert!(buffered(&d.accept(ev("a", EventKind::Modified, 0))));
    let c = fired(d.accept(ev("b", EventKind::Modified, 500)));
    assert_eq!(c.paths, vec!["a".to_string()]);
    assert!(d.is_open());
    let c = fired(d.poll(600));
    assert_eq!(c.paths, vec!["b".to_string()]);
}

#[test]
fn rename_pair_is_kept_together() {
    let r = normalize(NativeKind::RenameBoth, vec!["old".to_string(), "new".to_string()], 7);
    assert_eq!(r.len(), 2);
    assert_eq!((r[0].path.as_str(), r[0].kind, r[0].timestamp), ("old", EventKind::RenamedFrom, 7));
    assert_eq!((r[1].path.as_str(), r[1].kind), ("new", EventKind::RenamedTo));
}

#[test]
fn lone_rename_halves_are_removal_and_creation() {
    let r = normalize(NativeKind::RenameFrom, vec!["old".to_string()], 1);
    assert_eq!(r[0].kind, EventKind::Removed);
    let r = normalize(NativeKind::RenameTo, vec!["new".to_string()], 1);
    assert_eq!(r[0].kind, EventKind::Created);
}

#[test]
fn one_event_per_path() {
    let r = normalize(NativeKind::ModifyData, vec!["a".to_string(), "b".to_string(), "c".to_string()], 3);
    assert_eq!(r.len(), 3);
    assert!(r.iter().all(|e| e.kind == EventKind::Modified && e.timestamp == 3));
    assert_eq!(r[2].path, "c");
    assert!(normalize(NativeKind::Create, Vec::new(), 0).is_empty());
}

#[test]
fn native_kind_classes() {
    assert_eq!(classify(NativeKind::Access), EventKind::Accessed);
    assert_eq!(classify(NativeKind::ModifyAccessTime), EventKind::Accessed);
    assert_eq!(classify(NativeKind::ModifyMetadata), EventKind::Modified);
    assert_eq!(classify(NativeKind::Remove), EventKind::Removed);
    assert_eq!(classify(NativeKind::Other), EventKind::Unclassified);
    assert_eq!(classify(NativeKind::Any), EventKind::Unclassified);
}

#[test]
fn failing_path_is_retried_once_then_dropped() {
    let mut p = RetryPolicy::new();
    assert_eq!(p.on_error(&"a".to_string()), Recovery::Reregister);
    assert_eq!(p.on_error(&"b".to_string()), Recovery::Reregister);
    assert_eq!(p.on_error(&"a".to_string()), Recovery::Drop);
}
