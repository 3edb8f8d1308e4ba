use watchdiff::cache::ResourceCache;
use watchdiff::model::{ChangeType, Locator, LocatorKeys, LocatorType, Timestamp};
use watchdiff::watcher::Observed;

fn keys(namespace: Option<&str>, name: &str, uid: &str) -> LocatorKeys {
    LocatorKeys {
        namespace: namespace.map(String::from),
        name: String::from(name),
        uid: String::from(uid),
    }
}

fn pod(name: &str, yaml: &str, spec: &str, status: &str) -> Observed {
    Observed::new(
        Locator { kind: LocatorType::Pod, keys: keys(Some("default"), name, "uid-1") },
        String::from(yaml),
        String::from(spec),
        String::from(status),
        String::new(),
    )
    .unwrap()
}

fn at(secs: i64) -> Timestamp {
    Timestamp { secs, nanos: 0 }
}

#[test]
fn first_observation_emits_nothing() {
    let mut cache = ResourceCache::new();
    let first = pod("web", "v: 1\n", "s\n", "t\n");
    assert!(!cache.has_seen(&first));
    assert!(cache.observe_at(first, at(1), at(2)).is_none());
}

#[test]
fn first_observation_of_each_identity_emits_nothing() {
    let mut cache = ResourceCache::new();
    assert!(cache.observe_at(pod("a", "v: 1\n", "s\n", "t\n"), at(1), at(1)).is_none());
    assert!(cache.observe_at(pod("b", "v: 1\n", "s\n", "t\n"), at(2), at(2)).is_none());
    assert!(cache.observe_at(pod("a", "v: 2\n", "s\n", "t\n"), at(3), at(3)).is_some());
    assert!(cache.observe_at(pod("c", "v: 1\n", "s\n", "t\n"), at(4), at(4)).is_none());
}

#[test]
fn an_observed_identity_has_been_seen() {
    let mut cache = ResourceCache::new();
    let _ = cache.observe_at(pod("web", "v: 1\n", "s\n", "t\n"), at(1), at(1));
    assert!(cache.has_seen(&pod("web", "v: 9\n", "s9\n", "t9\n")));
    assert!(!cache.has_seen(&pod("other", "v: 1\n", "s\n", "t\n")));
}

#[test]
fn each_diff_compares_successive_versions() {
    let mut cache = ResourceCache::new();
    assert!(cache.observe_at(pod("web", "v: 1\n", "s\n", "t\n"), at(1), at(1)).is_none());
    let d1 = cache.observe_at(pod("web", "v: 2\n", "s\n", "t\n"), at(2), at(3)).unwrap();
    assert_eq!(d1.change.diff, "@@ -1,1 +1,1 @@\n-v: 1\n+v: 2\n");
    assert_eq!(d1.from, at(2));
    assert_eq!(d1.to, at(3));
    let d2 = cache.observe_at(pod("web", "v: 3\n", "s\n", "t\n"), at(4), at(5)).unwrap();
    assert_eq!(d2.change.diff, "@@ -1,1 +1,1 @@\n-v: 2\n+v: 3\n");
    let d3 = cache.observe_at(pod("web", "v: 4\n", "s\n", "t\n"), at(6), at(7)).unwrap();
    assert_eq!(d3.change.diff, "@@ -1,1 +1,1 @@\n-v: 3\n+v: 4\n");
}

#[test]
fn other_identities_do_not_come_between() {
    let mut cache = ResourceCache::new();
    let _ = cache.observe_at(pod("a", "v: 1\n", "s\n", "t\n"), at(1), at(1));
    let _ = cache.observe_at(pod("b", "w: 1\n", "s\n", "t\n"), at(2), at(2));
    let _ = cache.observe_at(pod("b", "w: 2\n", "s\n", "t\n"), at(3), at(3));
    let d = cache.observe_at(pod("a", "v: 2\n", "s\n", "t\n"), at(4), at(4)).unwrap();
    assert_eq!(d.change.diff, "@@ -1,1 +1,1 @@\n-v: 1\n+v: 2\n");
    assert_eq!(d.locator.keys.name, "a");
}

#[test]
fn an_unchanged_version_emits_an_empty_metadata_change() {
    let mut cache = ResourceCache::new();
    let _ = cache.observe_at(pod("web", "v: 1\n", "s\n", "t\n"), at(1), at(1));
    let d = cache.observe_at(pod("web", "v: 1\n", "s\n", "t\n"), at(2), at(2)).unwrap();
    assert_eq!(d.change.kind, ChangeType::Metadata);
    assert_eq!(d.change.diff, "");
}

#[test]
fn the_uid_is_not_part_of_the_key() {
    let mut cache = ResourceCache::new();
    let first = Observed::new(
        Locator { kind: LocatorType::Pod, keys: keys(Some("default"), "web", "uid-1") },
        String::from("v: 1\n"),
        String::new(),
        String::new(),
        String::new(),
    )
    .unwrap();
    let second = Observed::new(
        Locator { kind: LocatorType::Pod, keys: keys(Some("default"), "web", "uid-2") },
        String::from("v: 2\n"),
        String::new(),
        String::new(),
        String::new(),
    )
    .unwrap();
    assert!(cache.observe_at(first, at(1), at(1)).is_none());
    let d = cache.observe_at(second, at(2), at(2)).unwrap();
    assert_eq!(d.locator.keys.uid, "uid-2");
}

#[test]
fn namespaces_and_kinds_tell_identities_apart() {
    let mut cache = ResourceCache::new();
    let make = |kind: LocatorType, namespace: Option<&str>| {
        Observed::new(
            Locator { kind, keys: keys(namespace, "web", "uid-1") },
            String::from("v: 1\n"),
            String::new(),
            String::new(),
            String::new(),
        )
        .unwrap()
    };
    assert!(cache.observe_at(make(LocatorType::Pod, Some("a")), at(1), at(1)).is_none());
    assert!(cache.observe_at(make(LocatorType::Pod, Some("b")), at(1), at(1)).is_none());
    assert!(cache.observe_at(make(LocatorType::Pod, None), at(1), at(1)).is_none());
    assert!(cache.observe_at(make(LocatorType::Node, None), at(1), at(1)).is_none());
    assert!(cache.observe_at(make(LocatorType::Pod, Some("a")), at(1), at(1)).is_some());
}

#[test]
fn observe_reads_the_clock() {
    let mut cache = ResourceCache::new();
    assert!(cache.observe(pod("web", "v: 1\n", "s\n", "t1\n")).is_none());
    let d = cache.observe(pod("web", "v: 2\n", "s\n", "t2\n")).unwrap();
    assert_eq!(d.change.kind, ChangeType::Status);
    assert_eq!(d.change.diff, "@@ -1,1 +1,1 @@\n-v: 1\n+v: 2\n");
    assert!(d.from.secs > 1_600_000_000);
}

const POD_NOT_READY: &str = "apiVersion: v1\nkind: Pod\nmetadata:\n  name: web\n  namespace: default\n  uid: uid-1\nspec:\n  nodeName: node-a\nstatus:\n  conditions:\n    ready: false\n";

const POD_READY: &str = "apiVersion: v1\nkind: Pod\nmetadata:\n  name: web\n  namespace: default\n  uid: uid-1\nspec:\n  nodeName: node-a\nstatus:\n  conditions:\n    ready: true\n";

#[test]
fn pod_becoming_ready_is_one_status_change() {
    let mut cache = ResourceCache::new();
    let spec = "nodeName: node-a\n";
    let first = pod("web", POD_NOT_READY, spec, "conditions:\n  ready: false\n");
    let second = pod("web", POD_READY, spec, "conditions:\n  ready: true\n");
    assert!(cache.observe_at(first, at(1), at(1)).is_none());
    let d = cache.observe_at(second, at(2), at(2)).unwrap();
    assert_eq!(d.change.kind, ChangeType::Status);
    assert!(d.change.diff.contains("-    ready: false\n"));
    assert!(d.change.diff.contains("+    ready: true\n"));
    assert_eq!(
        d.change.diff,
        "@@ -8,4 +8,4 @@\n   nodeName: node-a\n status:\n   conditions:\n-    ready: false\n+    ready: true\n"
    );
    assert_eq!(d.locator.kind, LocatorType::Pod);
    assert_eq!(d.locator.keys, keys(Some("default"), "web", "uid-1"));
}

#[test]
fn config_map_key_change_is_a_spec_change() {
    let mut cache = ResourceCache::new();
    let make = |value: &str| {
        Observed::new(
            Locator { kind: LocatorType::ConfigMap, keys: keys(Some("default"), "settings", "uid-7") },
            format!("kind: ConfigMap\ndata:\n  colour: {}\n  size: large\n", value),
            String::new(),
            String::new(),
            format!("colour: {}\nsize: large\n", value),
        )
        .unwrap()
    };
    assert!(cache.observe_at(make("red"), at(1), at(1)).is_none());
    let d = cache.observe_at(make("blue"), at(2), at(2)).unwrap();
    assert_eq!(d.change.kind, ChangeType::Spec);
    assert_eq!(
        d.change.diff,
        "@@ -1,4 +1,4 @@\n kind: ConfigMap\n data:\n-  colour: red\n+  colour: blue\n   size: large\n"
    );
}

#[test]
fn a_feed_emits_one_record_less_than_versions_for_each_identity() {
    let feed = [
        ("a", "v: 1\n"),
        ("b", "w: 1\n"),
        ("a", "v: 2\n"),
        ("c", "x: 1\n"),
        ("b", "w: 2\n"),
        ("a", "v: 3\n"),
        ("a", "v: 4\n"),
    ];
    let mut cache = ResourceCache::new();
    let mut records = Vec::new();
    for (i, (name, yaml)) in feed.iter().enumerate() {
        if let Some(d) = cache.observe_at(pod(name, yaml, "s\n", "t\n"), at(i as i64), at(i as i64)) {
            records.push(d);
        }
    }
    assert_eq!(records.len(), feed.len() - 3);
    let of_a: Vec<&str> = records
        .iter()
        .filter(|d| d.locator.keys.name == "a")
        .map(|d| d.change.diff.as_str())
        .collect();
    assert_eq!(
        of_a,
        vec![
            "@@ -1,1 +1,1 @@\n-v: 1\n+v: 2\n",
            "@@ -1,1 +1,1 @@\n-v: 2\n+v: 3\n",
            "@@ -1,1 +1,1 @@\n-v: 3\n+v: 4\n",
        ]
    );
    let of_b: Vec<&str> = records
        .iter()
        .filter(|d| d.locator.keys.name == "b")
        .map(|d| d.change.diff.as_str())
        .collect();
    assert_eq!(of_b, vec!["@@ -1,1 +1,1 @@\n-w: 1\n+w: 2\n"]);
    assert!(records.iter().all(|d| d.locator.keys.name != "c"));
    let stamps: Vec<i64> = records.iter().map(|d| d.from.secs).collect();
    assert_eq!(stamps, vec![2, 4, 5, 6]);
}
