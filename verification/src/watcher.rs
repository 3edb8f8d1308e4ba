//! Observed objects: what one observed version of an object is, and how the
//! change between two versions is classified and written down.

use vstd::prelude::*;
use vstd::string::StringExecFns;
use crate::diff::{comparable, is_comparable, unified_diff, unified_diff_text};
use crate::model::{
    Change, ChangeType, ChangeView, Locator, LocatorType, LocatorView, ObjectDiff,
    ObjectDiffView, StreamError, Timestamp,
};
use crate::text::locator_text;

verus! {

/// One observed version of a watched object: its identity, its canonical
/// serialisation, and the canonical serialisations of the sections by which
/// a change is classified. Two sections are equal exactly when their
/// canonical texts are.
pub struct Observed {
    locator: Locator,
    yaml: String,
    spec: String,
    status: String,
    data: String,
}

pub struct ObservedView {
    pub locator: LocatorView,
    pub yaml: Seq<char>,
    pub spec: Seq<char>,
    pub status: Seq<char>,
    pub data: Seq<char>,
}

/// The category of the change from `previous` to `current`. For a pod or a
/// node the spec weighs more than the status; for a config map or a secret
/// only the data counts. Whatever else differs is metadata.
pub open spec fn classify(previous: ObservedView, current: ObservedView) -> ChangeType {
    match current.locator.kind {
        LocatorType::Pod | LocatorType::Node => {
            if current.spec != previous.spec {
                ChangeType::Spec
            } else if current.status != previous.status {
                ChangeType::Status
            } else {
                ChangeType::Metadata
            }
        },
        LocatorType::ConfigMap | LocatorType::Secret => {
            if current.data != previous.data {
                ChangeType::Spec
            } else {
                ChangeType::Metadata
            }
        },
    }
}

/// The change from `previous` to `current`: its category, and the unified
/// diff of the two serialisations.
pub open spec fn change_between(previous: ObservedView, current: ObservedView) -> ChangeView {
    ChangeView {
        kind: classify(previous, current),
        diff: unified_diff_text(previous.yaml, current.yaml),
    }
}

/// The change record for `current` following `previous`, observed between
/// `from` and `to`.
pub open spec fn delta(
    previous: ObservedView,
    current: ObservedView,
    from: Timestamp,
    to: Timestamp,
) -> ObjectDiffView {
    ObjectDiffView {
        locator: current.locator,
        change: change_between(previous, current),
        from,
        to,
    }
}

/// The key under which a version is cached: its identity written out.
pub open spec fn cache_key(object: ObservedView) -> Seq<char> {
    locator_text(object.locator)
}

/// The message of the error for a serialisation that is too long to compare.
pub open spec fn too_long_message() -> Seq<char> {
    "serialised object is too long to compare"@
}

/// How a change between two versions of an object is classified.
pub trait ExtraInfo<T> {
    spec fn change_type_spec(&self, previous: &T) -> ChangeType;

    fn change_type(&self, previous: &T) -> (kind: ChangeType)
        ensures
            kind == self.change_type_spec(previous),
    ;
}

/// What the watch adapter asks of an observed object.
pub trait WatchDiff<T> {
    spec fn yaml_spec(&self) -> Seq<char>;

    spec fn locator_spec(&self) -> LocatorView;

    spec fn change_spec(&self, previous: &T) -> ChangeView;

    /// Whether `self` and `previous` have the same canonical serialisation.
    spec fn same_yaml_spec(&self, previous: &T) -> bool;

    /// The canonical serialisation.
    fn yaml(&self) -> (text: String)
        ensures
            text@ == self.yaml_spec(),
    ;

    /// The change record for `self` following `previous`, stamped with two
    /// readings of the clock. Where the two serialisations are the same, the
    /// diff in it is empty.
    fn diff(&self, previous: &T) -> (out: ObjectDiff)
        ensures
            out@.locator == self.locator_spec(),
            out@.change == self.change_spec(previous),
            self.same_yaml_spec(previous) ==> out@.change.diff == Seq::<char>::empty(),
            out.from.is_reading(),
            out.to.is_reading(),
    ;

    /// The identity.
    fn locator(&self) -> (out: Locator)
        ensures
            out@ == self.locator_spec(),
    ;
}

impl View for Observed {
    type V = ObservedView;

    closed spec fn view(&self) -> ObservedView {
        ObservedView {
            locator: self.locator@,
            yaml: self.yaml@,
            spec: self.spec@,
            status: self.status@,
            data: self.data@,
        }
    }
}

impl Observed {
    #[verifier::type_invariant]
    spec fn comparable_yaml(self) -> bool {
        comparable(self.yaml@)
    }

    /// An observed version. It is refused where the serialisation is too
    /// long to be compared with another, and only there.
    pub fn new(locator: Locator, yaml: String, spec: String, status: String, data: String) -> (out:
        Result<Observed, StreamError>)
        ensures
            out is Ok <==> comparable(yaml@),
            out matches Ok(object) ==> object@ == (ObservedView {
                locator: locator@,
                yaml: yaml@,
                spec: spec@,
                status: status@,
                data: data@,
            }),
            out matches Err(error) ==> error@ == too_long_message(),
    {
        if is_comparable(yaml.as_str()) {
            Ok(Observed { locator, yaml, spec, status, data })
        } else {
            Err(StreamError::new(String::from_str("serialised object is too long to compare")))
        }
    }

    /// The change record for `self` following `previous`, observed between
    /// `from` and `to`. Where the two serialisations are the same, the diff
    /// in it is empty.
    pub fn diff_at(&self, previous: &Observed, from: Timestamp, to: Timestamp) -> (out: ObjectDiff)
        ensures
            out@ == delta(previous@, self@, from, to),
            previous@.yaml == self@.yaml ==> out@.change.diff == Seq::<char>::empty(),
    {
        proof {
            use_type_invariant(self);
            use_type_invariant(previous);
        }
        let kind = self.change_type(previous);
        let diff = unified_diff(previous.yaml.as_str(), self.yaml.as_str());
        ObjectDiff { locator: self.locator(), change: Change { kind, diff }, from, to }
    }

    /// The key under which this version is cached.
    pub fn key(&self) -> (out: String)
        ensures
            out@ == cache_key(self@),
    {
        self.locator.to_text()
    }
}

impl ExtraInfo<Observed> for Observed {
    open spec fn change_type_spec(&self, previous: &Observed) -> ChangeType {
        classify(previous@, self@)
    }

    fn change_type(&self, previous: &Observed) -> (kind: ChangeType) {
        match self.locator.kind {
            LocatorType::Pod | LocatorType::Node => {
                if !(self.spec == previous.spec) {
                    ChangeType::Spec
                } else if !(self.status == previous.status) {
                    ChangeType::Status
                } else {
                    ChangeType::Metadata
                }
            },
            LocatorType::ConfigMap | LocatorType::Secret => {
                if !(self.data == previous.data) {
                    ChangeType::Spec
                } else {
                    ChangeType::Metadata
                }
            },
        }
    }
}

impl WatchDiff<Observed> for Observed {
    open spec fn yaml_spec(&self) -> Seq<char> {
        self@.yaml
    }

    open spec fn locator_spec(&self) -> LocatorView {
        self@.locator
    }

    open spec fn change_spec(&self, previous: &Observed) -> ChangeView {
        change_between(previous@, self@)
    }

    open spec fn same_yaml_spec(&self, previous: &Observed) -> bool {
        previous@.yaml == self@.yaml
    }

    fn yaml(&self) -> (text: String) {
        self.yaml.clone()
    }

    fn diff(&self, previous: &Observed) -> (out: ObjectDiff) {
        let from = Timestamp::now();
        let to = Timestamp::now();
        self.diff_at(previous, from, to)
    }

    fn locator(&self) -> (out: Locator) {
        Locator { kind: self.locator.kind, keys: self.locator.keys.duplicate() }
    }
}

/// Two equal versions differ in nothing that is classified: the change
/// between them is metadata.
pub proof fn law_equal_objects_are_metadata(object: ObservedView)
    ensures
        classify(object, object) == ChangeType::Metadata,
{
}

/// For a pod or a node, a change that leaves the spec as it was is never
/// classified as a change of the spec: it is a change of the status where the
/// status differs, and of the metadata where it does not.
pub proof fn law_status_change_is_not_spec(previous: ObservedView, current: ObservedView)
    requires
        current.locator.kind == LocatorType::Pod || current.locator.kind == LocatorType::Node,
        current.spec == previous.spec,
    ensures
        classify(previous, current) != ChangeType::Spec,
        current.status != previous.status ==> classify(previous, current) == ChangeType::Status,
        current.status == previous.status ==> classify(previous, current)
            == ChangeType::Metadata,
{
}

/// For a config map or a secret, a change is a change of the spec exactly
/// where the data differs, and of the metadata otherwise.
pub proof fn law_data_change_is_spec(previous: ObservedView, current: ObservedView)
    requires
        current.locator.kind == LocatorType::ConfigMap || current.locator.kind
            == LocatorType::Secret,
    ensures
        classify(previous, current) == if current.data != previous.data {
            ChangeType::Spec
        } else {
            ChangeType::Metadata
        },
{
}

} // verus!
