use watchdiff::adapter::{Emission, Notification, Reaction, WatchAdapter};
use watchdiff::model::{ChangeType, Locator, LocatorKeys, LocatorType, StreamError, Timestamp};
use watchdiff::watcher::Observed;

fn node(name: &str, yaml: &str, spec: &str, status: &str) -> Observed {
    Observed::new(
        Locator {
            kind: LocatorType::Node,
            keys: LocatorKeys { namespace: None, name: String::from(name), uid: String::from("u") },
        },
        String::from(yaml),
        String::from(spec),
        String::from(status),
        String::new(),
    )
    .unwrap()
}

fn at(secs: i64) -> Timestamp {
    Timestamp { secs, nanos: 0 }
}

fn is_nothing(reaction: &Reaction) -> bool {
    matches!(reaction.emission, Emission::Nothing)
}

#[test]
fn a_new_adapter_is_not_finished() {
    assert!(!WatchAdapter::new().is_finished());
}

#[test]
fn adapter_is_silent_on_first_sight() {
    let mut adapter = WatchAdapter::new();
    let r = adapter.handle_at(Notification::Applied(node("a", "v: 1\n", "s\n", "t\n")), at(1), at(1));
    assert!(is_nothing(&r));
    assert!(r.go_on);
    assert!(!adapter.is_finished());
}

#[test]
fn adapter_emits_each_successive_change() {
    let mut adapter = WatchAdapter::new();
    let _ = adapter.handle_at(Notification::Applied(node("a", "v: 1\n", "s1\n", "t\n")), at(1), at(1));
    let r = adapter.handle_at(Notification::Applied(node("a", "v: 2\n", "s2\n", "t\n")), at(2), at(3));
    assert!(r.go_on);
    match r.emission {
        Emission::Diff(d) => {
            assert_eq!(d.change.kind, ChangeType::Spec);
            assert_eq!(d.change.diff, "@@ -1,1 +1,1 @@\n-v: 1\n+v: 2\n");
            assert_eq!(d.from, at(2));
            assert_eq!(d.to, at(3));
        }
        _ => panic!("the second version emitted no change"),
    }
    let r = adapter.handle_at(Notification::Applied(node("a", "v: 3\n", "s2\n", "t\n")), at(4), at(4));
    match r.emission {
        Emission::Diff(d) => {
            assert_eq!(d.change.kind, ChangeType::Metadata);
            assert_eq!(d.change.diff, "@@ -1,1 +1,1 @@\n-v: 2\n+v: 3\n");
        }
        _ => panic!("the third version emitted no change"),
    }
}

#[test]
fn an_unrendered_object_is_an_error_and_the_session_goes_on() {
    let mut adapter = WatchAdapter::new();
    let _ = adapter.handle_at(Notification::Applied(node("a", "v: 1\n", "s\n", "t\n")), at(1), at(1));
    let r = adapter.handle_at(
        Notification::Unrendered(StreamError::new(String::from("cannot render"))),
        at(2),
        at(2),
    );
    assert!(r.go_on);
    match r.emission {
        Emission::Error(e) => assert_eq!(e.message, "cannot render"),
        _ => panic!("the error was not emitted"),
    }
    assert!(!adapter.is_finished());
    let r = adapter.handle_at(Notification::Applied(node("a", "v: 2\n", "s\n", "t\n")), at(3), at(3));
    match r.emission {
        Emission::Diff(d) => assert_eq!(d.change.diff, "@@ -1,1 +1,1 @@\n-v: 1\n+v: 2\n"),
        _ => panic!("the skipped object disturbed the cache"),
    }
}

#[test]
fn a_failure_is_emitted_and_ends_the_stream() {
    let mut adapter = WatchAdapter::new();
    let r = adapter.handle_at(
        Notification::Failed(StreamError::new(String::from("forbidden"))),
        at(1),
        at(1),
    );
    assert!(!r.go_on);
    match r.emission {
        Emission::Error(e) => assert_eq!(e.message, "forbidden"),
        _ => panic!("the failure was not emitted"),
    }
    assert!(adapter.is_finished());
}

#[test]
fn the_end_of_the_session_ends_the_stream_silently() {
    let mut adapter = WatchAdapter::new();
    let r = adapter.handle_at(Notification::Ended, at(1), at(1));
    assert!(!r.go_on);
    assert!(is_nothing(&r));
    assert!(adapter.is_finished());
}

#[test]
fn a_finished_adapter_emits_nothing_more() {
    let mut adapter = WatchAdapter::new();
    let _ = adapter.handle_at(Notification::Applied(node("a", "v: 1\n", "s\n", "t\n")), at(1), at(1));
    let _ = adapter.handle_at(Notification::Ended, at(2), at(2));
    let r = adapter.handle_at(Notification::Applied(node("a", "v: 2\n", "s\n", "t\n")), at(3), at(3));
    assert!(is_nothing(&r));
    assert!(!r.go_on);
    let r = adapter.handle_at(
        Notification::Failed(StreamError::new(String::from("late"))),
        at(4),
        at(4),
    );
    assert!(is_nothing(&r));
    assert!(!r.go_on);
    assert!(adapter.is_finished());
}

#[test]
fn handle_reads_the_clock() {
    let mut adapter = WatchAdapter::new();
    let r = adapter.handle(Notification::Applied(node("a", "v: 1\n", "s\n", "t1\n")));
    assert!(is_nothing(&r));
    let r = adapter.handle(Notification::Applied(node("a", "v: 2\n", "s\n", "t2\n")));
    assert!(r.go_on);
    match r.emission {
        Emission::Diff(d) => {
            assert_eq!(d.change.kind, ChangeType::Status);
            assert!(d.from.secs > 1_600_000_000);
            assert!(d.to_json().is_some());
            assert!(d.to_text().is_some());
        }
        _ => panic!("the second version emitted no change"),
    }
}

#[test]
fn an_answer_puts_its_emission_on_the_stream() {
    let mut adapter = WatchAdapter::new();
    let first = adapter.handle_at(Notification::Applied(node("a", "v: 1\n", "s\n", "t\n")), at(1), at(1));
    assert!(first.into_item().is_none());
    let second = adapter.handle_at(Notification::Applied(node("a", "v: 2\n", "s\n", "t\n")), at(2), at(2));
    match second.into_item() {
        Some(Ok(d)) => assert_eq!(d.change.diff, "@@ -1,1 +1,1 @@\n-v: 1\n+v: 2\n"),
        _ => panic!("the change was not put on the stream"),
    }
    let failed = adapter.handle_at(
        Notification::Failed(StreamError::new(String::from("forbidden"))),
        at(3),
        at(3),
    );
    match failed.into_item() {
        Some(Err(e)) => assert_eq!(e.message, "forbidden"),
        _ => panic!("the error was not put on the stream"),
    }
}

#[test]
fn an_unchanged_serialisation_gives_an_empty_diff() {
    let mut adapter = WatchAdapter::new();
    let _ = adapter.handle(Notification::Applied(node("a", "v: 1\n", "s\n", "t1\n")));
    let r = adapter.handle(Notification::Applied(node("a", "v: 1\n", "s\n", "t2\n")));
    match r.emission {
        Emission::Diff(d) => {
            assert_eq!(d.change.diff, "");
            assert_eq!(d.change.kind, ChangeType::Status);
            assert!(d.from.nanos < 1_000_000_000);
            assert!(d.to.nanos < 1_000_000_000);
            assert!(d.from.to_text().is_some());
            assert!(d.to.to_text().is_some());
        }
        _ => panic!("the second version emitted no change"),
    }
}
