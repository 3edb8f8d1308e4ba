//! The data that flows through the library, and its mathematical views.

use vstd::prelude::*;

verus! {

/// The coarsest category of what changed between two versions of an object.
#[derive(Clone, Copy, Debug, PartialEq, Eq, Structural)]
pub enum ChangeType {
    Metadata,
    Spec,
    Status,
}

/// The kinds of resources that are watched.
#[derive(Clone, Copy, Debug, PartialEq, Eq, Structural)]
pub enum LocatorType {
    Pod,
    Secret,
    ConfigMap,
    Node,
}

/// The names by which one object is told from the others of its kind.
#[derive(Clone, Debug, PartialEq, Eq)]
pub struct LocatorKeys {
    pub namespace: Option<String>,
    pub name: String,
    pub uid: String,
}

/// The identity of a watched object.
#[derive(Clone, Debug, PartialEq, Eq)]
pub struct Locator {
    pub kind: LocatorType,
    pub keys: LocatorKeys,
}

/// What changed between two versions: the category and the unified diff.
#[derive(Clone, Debug, PartialEq, Eq)]
pub struct Change {
    pub kind: ChangeType,
    pub diff: String,
}

/// A point in time: whole seconds since the Unix epoch, and the nanoseconds
/// into that second.
#[derive(Clone, Copy, Debug, PartialEq, Eq, Structural)]
pub struct Timestamp {
    pub secs: i64,
    pub nanos: u32,
}

/// One emitted change record.
#[derive(Clone, Debug, PartialEq, Eq)]
pub struct ObjectDiff {
    pub locator: Locator,
    pub change: Change,
    pub from: Timestamp,
    pub to: Timestamp,
}

/// An error carried on an event stream.
#[derive(Clone, Debug, PartialEq, Eq)]
pub struct StreamError {
    pub message: String,
}

pub struct LocatorKeysView {
    pub namespace: Option<Seq<char>>,
    pub name: Seq<char>,
    pub uid: Seq<char>,
}

pub struct LocatorView {
    pub kind: LocatorType,
    pub keys: LocatorKeysView,
}

pub struct ChangeView {
    pub kind: ChangeType,
    pub diff: Seq<char>,
}

pub struct ObjectDiffView {
    pub locator: LocatorView,
    pub change: ChangeView,
    pub from: Timestamp,
    pub to: Timestamp,
}

/// The text of an optional string, as a sequence of characters.
pub open spec fn option_text(s: Option<String>) -> Option<Seq<char>> {
    match s {
        Some(t) => Some(t@),
        None => None,
    }
}

/// The view of a change record that may be absent.
pub open spec fn diff_view(diff: Option<ObjectDiff>) -> Option<ObjectDiffView> {
    match diff {
        Some(d) => Some(d@),
        None => None,
    }
}

/// The views of a list of change records, in order.
pub open spec fn diff_views(diffs: Seq<ObjectDiff>) -> Seq<ObjectDiffView> {
    diffs.map_values(|d: ObjectDiff| d@)
}

impl View for LocatorKeys {
    type V = LocatorKeysView;

    open spec fn view(&self) -> LocatorKeysView {
        LocatorKeysView {
            namespace: option_text(self.namespace),
            name: self.name@,
            uid: self.uid@,
        }
    }
}

impl View for Locator {
    type V = LocatorView;

    open spec fn view(&self) -> LocatorView {
        LocatorView { kind: self.kind, keys: self.keys@ }
    }
}

impl View for Change {
    type V = ChangeView;

    open spec fn view(&self) -> ChangeView {
        ChangeView { kind: self.kind, diff: self.diff@ }
    }
}

impl View for ObjectDiff {
    type V = ObjectDiffView;

    open spec fn view(&self) -> ObjectDiffView {
        ObjectDiffView {
            locator: self.locator@,
            change: self.change@,
            from: self.from,
            to: self.to,
        }
    }
}

impl View for StreamError {
    type V = Seq<char>;

    open spec fn view(&self) -> Seq<char> {
        self.message@
    }
}

/// A copy of an optional string.
pub fn clone_option_text(s: &Option<String>) -> (out: Option<String>)
    ensures
        option_text(out) == option_text(*s),
{
    match s {
        Some(t) => Some(t.clone()),
        None => None,
    }
}

impl LocatorKeys {
    /// A copy with the same view.
    pub fn duplicate(&self) -> (out: LocatorKeys)
        ensures
            out@ == self@,
    {
        LocatorKeys {
            namespace: clone_option_text(&self.namespace),
            name: self.name.clone(),
            uid: self.uid.clone(),
        }
    }
}

impl StreamError {
    pub fn new(message: String) -> (out: StreamError)
        ensures
            out@ == message@,
    {
        StreamError { message }
    }

    /// The message, as the error displays itself.
    pub fn to_text(&self) -> (out: String)
        ensures
            out@ == self@,
    {
        self.message.clone()
    }
}

} // verus!
