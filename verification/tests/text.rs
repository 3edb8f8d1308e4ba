use watchdiff::model::{
    Change, ChangeType, Locator, LocatorKeys, LocatorType, ObjectDiff, StreamError, Timestamp,
};

fn locator(kind: LocatorType, namespace: Option<&str>, name: &str, uid: &str) -> Locator {
    Locator {
        kind,
        keys: LocatorKeys {
            namespace: namespace.map(String::from),
            name: String::from(name),
            uid: String::from(uid),
        },
    }
}

#[test]
fn kind_names() {
    assert_eq!(LocatorType::Pod.as_str(), "Pod");
    assert_eq!(LocatorType::Secret.as_str(), "Secret");
    assert_eq!(LocatorType::ConfigMap.as_str(), "ConfigMap");
    assert_eq!(LocatorType::Node.as_str(), "Node");
}

#[test]
fn kind_names_are_the_debug_names() {
    assert_eq!(LocatorType::ConfigMap.as_str(), format!("{:?}", LocatorType::ConfigMap));
    assert_eq!(ChangeType::Status.as_str(), format!("{:?}", ChangeType::Status));
}

#[test]
fn category_names() {
    assert_eq!(ChangeType::Metadata.as_str(), "Metadata");
    assert_eq!(ChangeType::Spec.as_str(), "Spec");
    assert_eq!(ChangeType::Status.as_str(), "Status");
}

#[test]
fn locator_with_a_namespace() {
    let l = locator(LocatorType::Pod, Some("default"), "web", "u-1");
    assert_eq!(l.to_text(), "resource Pod name web namespace Some(\"default\")");
}

#[test]
fn locator_without_a_namespace() {
    let l = locator(LocatorType::Node, None, "node-a", "u-2");
    assert_eq!(l.to_text(), "resource Node name node-a namespace None");
}

#[test]
fn locator_namespace_is_escaped() {
    let l = locator(LocatorType::Secret, Some("a\"b\\c\n"), "s", "u-3");
    assert_eq!(l.to_text(), "resource Secret name s namespace Some(\"a\\\"b\\\\c\\n\")");
}

#[test]
fn locator_text_leaves_the_uid_out() {
    let a = locator(LocatorType::ConfigMap, Some("kube-system"), "cfg", "u-4");
    let b = locator(LocatorType::ConfigMap, Some("kube-system"), "cfg", "u-5");
    assert_eq!(a.to_text(), b.to_text());
    assert_eq!(a.to_text(), "resource ConfigMap name cfg namespace Some(\"kube-system\")");
}

#[test]
fn timestamp_text_of_a_known_moment() {
    let t = Timestamp { secs: 1431648000, nanos: 0 };
    assert_eq!(t.to_text(), Some(String::from("2015-05-15 00:00:00 UTC")));
}

#[test]
fn timestamp_text_of_the_epoch() {
    let t = Timestamp { secs: 0, nanos: 0 };
    assert_eq!(t.to_text(), Some(String::from("1970-01-01 00:00:00 UTC")));
}

#[test]
fn timestamp_without_a_moment_has_no_text() {
    let t = Timestamp { secs: 0, nanos: 2_000_000_000 };
    assert_eq!(t.to_text(), None);
    let far = Timestamp { secs: i64::MAX, nanos: 0 };
    assert_eq!(far.to_text(), None);
}

#[test]
fn the_clock_reads_a_moment_of_this_century() {
    let now = Timestamp::now();
    assert!(now.secs > 1_600_000_000);
    assert!(now.nanos < 1_000_000_000);
    assert!(now.to_text().is_some());
}

#[test]
fn every_reading_of_the_clock_has_a_text() {
    for _ in 0..100 {
        let now = Timestamp::now();
        assert!(now.nanos < 1_000_000_000);
        let text = now.to_text().unwrap();
        assert!(text.ends_with(" UTC"));
    }
}

#[test]
fn object_diff_text() {
    let d = ObjectDiff {
        locator: locator(LocatorType::Pod, Some("default"), "web", "u-1"),
        change: Change { kind: ChangeType::Status, diff: String::from("@@ -1,1 +1,1 @@\n-a\n+b\n") },
        from: Timestamp { secs: 1431648000, nanos: 0 },
        to: Timestamp { secs: 1431648001, nanos: 0 },
    };
    assert_eq!(
        d.to_text(),
        Some(String::from(
            "2015-05-15 00:00:00 UTC: resource resource Pod name web namespace Some(\"default\") type Status diff\n@@ -1,1 +1,1 @@\n-a\n+b\n"
        ))
    );
}

#[test]
fn object_diff_without_a_moment_has_no_text() {
    let d = ObjectDiff {
        locator: locator(LocatorType::Pod, None, "web", "u-1"),
        change: Change { kind: ChangeType::Metadata, diff: String::new() },
        from: Timestamp { secs: 0, nanos: 2_000_000_000 },
        to: Timestamp { secs: 0, nanos: 0 },
    };
    assert_eq!(d.to_text(), None);
}

#[test]
fn stream_error_text_is_its_message() {
    let e = StreamError::new(String::from("watch closed"));
    assert_eq!(e.to_text(), "watch closed");
    assert_eq!(e.message, "watch closed");
}

#[test]
fn locator_keys_duplicate() {
    let l = locator(LocatorType::Pod, Some("default"), "web", "u-1");
    assert_eq!(l.keys.duplicate(), l.keys);
    let m = locator(LocatorType::Pod, None, "web", "u-1");
    assert_eq!(m.keys.duplicate(), m.keys);
}
