//! How identities and change records are written out for a reader.

use vstd::prelude::*;
use vstd::string::StringExecFns;
use crate::clock::utc_text;
use crate::model::{
    option_text, ChangeType, Locator, LocatorType, LocatorView, ObjectDiff, ObjectDiffView,
};

verus! {

/// A string as `Debug` writes it: between double quotes, with the characters
/// that need it escaped.
pub uninterp spec fn debug_text(s: Seq<char>) -> Seq<char>;

/// Formats a string slice with std's `Debug` for `str`. The contract names
/// the result, which depends on the characters alone.
#[verifier::external_body]
fn debug_string(s: &str) -> (out: String)
    ensures
        out@ == debug_text(s@),
{
    format!("{:?}", s)
}

impl LocatorType {
    /// The kind's name.
    pub open spec fn name(self) -> Seq<char> {
        match self {
            LocatorType::Pod => "Pod"@,
            LocatorType::Secret => "Secret"@,
            LocatorType::ConfigMap => "ConfigMap"@,
            LocatorType::Node => "Node"@,
        }
    }

    pub fn as_str(&self) -> (out: &'static str)
        ensures
            out@ == self.name(),
    {
        match self {
            LocatorType::Pod => "Pod",
            LocatorType::Secret => "Secret",
            LocatorType::ConfigMap => "ConfigMap",
            LocatorType::Node => "Node",
        }
    }
}

impl ChangeType {
    /// The category's name.
    pub open spec fn name(self) -> Seq<char> {
        match self {
            ChangeType::Metadata => "Metadata"@,
            ChangeType::Spec => "Spec"@,
            ChangeType::Status => "Status"@,
        }
    }

    pub fn as_str(&self) -> (out: &'static str)
        ensures
            out@ == self.name(),
    {
        match self {
            ChangeType::Metadata => "Metadata",
            ChangeType::Spec => "Spec",
            ChangeType::Status => "Status",
        }
    }
}

/// An optional namespace as it is written out: `None`, or the quoted
/// namespace inside `Some(..)`.
pub open spec fn namespace_text(namespace: Option<Seq<char>>) -> Seq<char> {
    match namespace {
        Some(s) => "Some("@ + debug_text(s) + ")"@,
        None => "None"@,
    }
}

/// An identity as it is written out: kind, name and namespace. The uid is
/// not part of it.
pub open spec fn locator_text(locator: LocatorView) -> Seq<char> {
    "resource "@ + locator.kind.name() + " name "@ + locator.keys.name + " namespace "@
        + namespace_text(locator.keys.namespace)
}

/// A change record as it is written out, given the text of its `from` moment.
pub open spec fn object_diff_text(moment: Seq<char>, diff: ObjectDiffView) -> Seq<char> {
    moment + ": resource "@ + locator_text(diff.locator) + " type "@ + diff.change.kind.name()
        + " diff\n"@ + diff.change.diff
}

fn namespace_string(namespace: &Option<String>) -> (out: String)
    ensures
        out@ == namespace_text(option_text(*namespace)),
{
    match namespace {
        Some(s) => {
            let mut out = String::from_str("Some(");
            let quoted = debug_string(s.as_str());
            out.append(quoted.as_str());
            out.append(")");
            out
        },
        None => String::from_str("None"),
    }
}

impl Locator {
    /// The identity written out. Two identities of one kind, name and
    /// namespace are written alike, whatever their uids.
    pub fn to_text(&self) -> (out: String)
        ensures
            out@ == locator_text(self@),
    {
        let mut out = String::from_str("resource ");
        out.append(self.kind.as_str());
        out.append(" name ");
        out.append(self.keys.name.as_str());
        out.append(" namespace ");
        let namespace = namespace_string(&self.keys.namespace);
        out.append(namespace.as_str());
        out
    }
}

impl ObjectDiff {
    /// The record written out, headed by its `from` moment; `None` where the
    /// calendar has no name for that moment.
    pub fn to_text(&self) -> (out: Option<String>)
        ensures
            option_text(out) == match utc_text(self.from.secs, self.from.nanos) {
                Some(moment) => Some(object_diff_text(moment, self@)),
                None => None,
            },
    {
        match self.from.to_text() {
            Some(moment) => {
                let mut out = moment;
                out.append(": resource ");
                let locator = self.locator.to_text();
                out.append(locator.as_str());
                out.append(" type ");
                out.append(self.change.kind.as_str());
                out.append(" diff\n");
                out.append(self.change.diff.as_str());
                Some(out)
            },
            None => None,
        }
    }
}

} // verus!
