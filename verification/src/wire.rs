//! The wire form of a change record: one JSON object, as a subscriber
//! receives it. The library lays out the object; the strings and the moments
//! in it are encoded by serde_json and chrono.

use vstd::prelude::*;
use vstd::string::StringExecFns;
use crate::clock::utc_text;
use crate::model::{
    diff_views, option_text, Change, ChangeView, Locator, LocatorKeys, LocatorKeysView,
    LocatorView, ObjectDiff, ObjectDiffView, Timestamp,
};

verus! {

/// A string as a JSON string: between double quotes and escaped; `None`
/// where the encoder fails, which it does for no string.
pub uninterp spec fn json_string_text(s: Seq<char>) -> Option<Seq<char>>;

/// A moment as a JSON string holding its RFC 3339 form; `None` where chrono
/// has no moment for the pair.
pub uninterp spec fn utc_json_text(secs: i64, nanos: u32) -> Option<Seq<char>>;

/// Encodes a string slice with `serde_json::to_string`. The contract names
/// the outcome, which depends on the characters alone, and claims that there
/// is one for every string: the encoder writes a string slice into a vector
/// of bytes, and fails only where its writer does, which a vector never
/// does.
#[verifier::external_body]
fn json_string(s: &str) -> (out: Option<String>)
    ensures
        option_text(out) == json_string_text(s@),
        out is Some,
{
    serde_json::to_string(s).ok()
}

/// Builds the moment with `chrono::DateTime::from_timestamp` and encodes it
/// with `serde_json::to_string`, through chrono's `Serialize` for
/// `DateTime<Utc>`. The contract names the outcome, which depends on the pair
/// alone, and claims that there is one exactly where chrono has a moment for
/// the pair, which is where `utc_text` has a text: chrono writes the moment
/// out as one string, and the encoder fails only where its writer does,
/// which a vector of bytes never does.
#[verifier::external_body]
fn utc_json(secs: i64, nanos: u32) -> (out: Option<String>)
    ensures
        option_text(out) == utc_json_text(secs, nanos),
        out is Some <==> utc_text(secs, nanos) is Some,
{
    match chrono::DateTime::from_timestamp(secs, nanos) {
        Some(moment) => serde_json::to_string(&moment).ok(),
        None => None,
    }
}

/// An optional namespace on the wire: `null`, or the namespace as a string.
pub open spec fn namespace_json(namespace: Option<Seq<char>>) -> Option<Seq<char>> {
    match namespace {
        Some(s) => json_string_text(s),
        None => Some("null"@),
    }
}

/// The keys of an identity on the wire.
pub open spec fn keys_json(keys: LocatorKeysView) -> Option<Seq<char>> {
    match (namespace_json(keys.namespace), json_string_text(keys.name), json_string_text(keys.uid)) {
        (Some(namespace), Some(name), Some(uid)) => Some(
            "{\"namespace\":"@ + namespace + ",\"name\":"@ + name + ",\"uid\":"@ + uid + "}"@,
        ),
        _ => None,
    }
}

/// An identity on the wire.
pub open spec fn locator_json(locator: LocatorView) -> Option<Seq<char>> {
    match keys_json(locator.keys) {
        Some(keys) => Some(
            "{\"type\":\""@ + locator.kind.name() + "\",\"keys\":"@ + keys + "}"@,
        ),
        None => None,
    }
}

/// A change on the wire.
pub open spec fn change_json(change: ChangeView) -> Option<Seq<char>> {
    match json_string_text(change.diff) {
        Some(diff) => Some("{\"type\":\""@ + change.kind.name() + "\",\"diff\":"@ + diff + "}"@),
        None => None,
    }
}

/// Whether a change record can be put on the wire: both its moments are
/// moments that the calendar names. Its strings always can.
pub open spec fn encodable(diff: ObjectDiffView) -> bool {
    diff.from.has_text() && diff.to.has_text()
}

/// A change record on the wire; `None` where one of its parts cannot be
/// encoded.
pub open spec fn object_diff_json(diff: ObjectDiffView) -> Option<Seq<char>> {
    match (
        locator_json(diff.locator),
        change_json(diff.change),
        utc_json_text(diff.from.secs, diff.from.nanos),
        utc_json_text(diff.to.secs, diff.to.nanos),
    ) {
        (Some(locator), Some(change), Some(from), Some(to)) => Some(
            "{\"locator\":"@ + locator + ",\"change\":"@ + change + ",\"from\":"@ + from
                + ",\"to\":"@ + to + "}"@,
        ),
        _ => None,
    }
}

fn namespace_to_json(namespace: &Option<String>) -> (out: Option<String>)
    ensures
        option_text(out) == namespace_json(option_text(*namespace)),
        out is Some,
{
    match namespace {
        Some(s) => json_string(s.as_str()),
        None => Some(String::from_str("null")),
    }
}

impl Timestamp {
    /// The moment on the wire.
    pub fn to_json(&self) -> (out: Option<String>)
        ensures
            option_text(out) == utc_json_text(self.secs, self.nanos),
            out is Some <==> self.has_text(),
    {
        utc_json(self.secs, self.nanos)
    }
}

impl LocatorKeys {
    /// The keys on the wire.
    pub fn to_json(&self) -> (out: Option<String>)
        ensures
            option_text(out) == keys_json(self@),
            out is Some,
    {
        let namespace = namespace_to_json(&self.namespace);
        let name = json_string(self.name.as_str());
        let uid = json_string(self.uid.as_str());
        match (namespace, name, uid) {
            (Some(namespace), Some(name), Some(uid)) => {
                let mut out = String::from_str("{\"namespace\":");
                out.append(namespace.as_str());
                out.append(",\"name\":");
                out.append(name.as_str());
                out.append(",\"uid\":");
                out.append(uid.as_str());
                out.append("}");
                Some(out)
            },
            _ => None,
        }
    }
}

impl Locator {
    /// The identity on the wire.
    pub fn to_json(&self) -> (out: Option<String>)
        ensures
            option_text(out) == locator_json(self@),
            out is Some,
    {
        match self.keys.to_json() {
            Some(keys) => {
                let mut out = String::from_str("{\"type\":\"");
                out.append(self.kind.as_str());
                out.append("\",\"keys\":");
                out.append(keys.as_str());
                out.append("}");
                Some(out)
            },
            None => None,
        }
    }
}

impl Change {
    /// The change on the wire.
    pub fn to_json(&self) -> (out: Option<String>)
        ensures
            option_text(out) == change_json(self@),
            out is Some,
    {
        match json_string(self.diff.as_str()) {
            Some(diff) => {
                let mut out = String::from_str("{\"type\":\"");
                out.append(self.kind.as_str());
                out.append("\",\"diff\":");
                out.append(diff.as_str());
                out.append("}");
                Some(out)
            },
            None => None,
        }
    }
}

impl ObjectDiff {
    /// The change record on the wire: one JSON object with the members
    /// `locator`, `change`, `from` and `to`, in this order.
    pub fn to_json(&self) -> (out: Option<String>)
        ensures
            option_text(out) == object_diff_json(self@),
            out is Some <==> encodable(self@),
    {
        let locator = self.locator.to_json();
        let change = self.change.to_json();
        let from = self.from.to_json();
        let to = self.to.to_json();
        match (locator, change, from, to) {
            (Some(locator), Some(change), Some(from), Some(to)) => {
                let mut out = String::from_str("{\"locator\":");
                out.append(locator.as_str());
                out.append(",\"change\":");
                out.append(change.as_str());
                out.append(",\"from\":");
                out.append(from.as_str());
                out.append(",\"to\":");
                out.append(to.as_str());
                out.append("}");
                Some(out)
            },
            _ => None,
        }
    }
}

/// Change records on the wire, one after another with a comma between;
/// `None` where one of them cannot be encoded.
pub open spec fn joined_json(diffs: Seq<ObjectDiffView>) -> Option<Seq<char>>
    decreases diffs.len(),
{
    if diffs.len() == 0 {
        Some(Seq::empty())
    } else {
        match (joined_json(diffs.drop_last()), object_diff_json(diffs.last())) {
            (Some(head), Some(last)) => Some(
                if diffs.len() == 1 {
                    last
                } else {
                    head + ","@ + last
                },
            ),
            _ => None,
        }
    }
}

/// A list of change records on the wire: one JSON array, in the order of the
/// list.
pub open spec fn collection_json(diffs: Seq<ObjectDiffView>) -> Option<Seq<char>> {
    match joined_json(diffs) {
        Some(body) => Some("["@ + body + "]"@),
        None => None,
    }
}

/// The collected change records on the wire: a JSON array that holds each
/// record as `ObjectDiff::to_json` gives it, in order; `None` where one of
/// them cannot be encoded.
pub fn collection_to_json(diffs: &Vec<ObjectDiff>) -> (out: Option<String>)
    ensures
        option_text(out) == collection_json(diff_views(diffs@)),
        out is Some <==> forall|k: int| 0 <= k < diffs@.len() ==> encodable(#[trigger] diffs@[k]@),
{
    let mut body: Option<String> = Some(String::new());
    let mut i: usize = 0;
    assert(diff_views(diffs@).take(0) =~= Seq::<ObjectDiffView>::empty());
    while i < diffs.len()
        invariant
            0 <= i <= diffs.len(),
            option_text(body) == joined_json(diff_views(diffs@).take(i as int)),
            body is Some <==> forall|k: int| 0 <= k < i ==> encodable(#[trigger] diffs@[k]@),
        decreases diffs.len() - i,
    {
        let ghost seen = diff_views(diffs@).take(i + 1);
        assert(seen.drop_last() =~= diff_views(diffs@).take(i as int));
        assert(seen.last() == diffs@[i as int]@);
        let next = diffs[i].to_json();
        body = match (body, next) {
            (Some(head), Some(last)) => {
                if i == 0 {
                    Some(last)
                } else {
                    let mut joined = head;
                    joined.append(",");
                    joined.append(last.as_str());
                    Some(joined)
                }
            },
            _ => None,
        };
        i = i + 1;
    }
    assert(diff_views(diffs@).take(i as int) =~= diff_views(diffs@));
    match body {
        Some(body) => {
            let mut out = String::from_str("[");
            out.append(body.as_str());
            out.append("]");
            Some(out)
        },
        None => None,
    }
}

} // verus!
