//! The resource cache: the last version seen of every identity, and the
//! change records that a feed of observations gives rise to.

use vstd::prelude::*;
use vstd::hash_map::StringHashMap;
use crate::model::{diff_view, ObjectDiff, ObjectDiffView, Timestamp};
use crate::watcher::{cache_key, delta, Observed, ObservedView};

verus! {

/// The last version seen of every identity of one kind, by cache key.
pub struct ResourceCache {
    entries: StringHashMap<Observed>,
}

/// What observing `current` emits, given what the cache held before: nothing
/// for an identity not seen yet, else the change from the cached version.
pub open spec fn emitted(
    cache: Map<Seq<char>, ObservedView>,
    current: ObservedView,
    from: Timestamp,
    to: Timestamp,
) -> Option<ObjectDiffView> {
    if cache.contains_key(cache_key(current)) {
        Some(delta(cache[cache_key(current)], current, from, to))
    } else {
        None
    }
}

/// Whether `current` has the serialisation of the version that the cache
/// holds of its identity.
pub open spec fn unchanged_text(cache: Map<Seq<char>, ObservedView>, current: ObservedView) -> bool {
    cache.contains_key(cache_key(current)) && cache[cache_key(current)].yaml == current.yaml
}

/// Whether what was emitted is a change with an empty diff.
pub open spec fn emits_empty_diff(out: Option<ObjectDiffView>) -> bool {
    match out {
        Some(diff) => diff.change.diff == Seq::<char>::empty(),
        None => false,
    }
}

/// What the cache holds after `updates` were observed in order, starting
/// from `cache`.
pub open spec fn cache_after(
    cache: Map<Seq<char>, ObservedView>,
    updates: Seq<ObservedView>,
) -> Map<Seq<char>, ObservedView>
    decreases updates.len(),
{
    if updates.len() == 0 {
        cache
    } else {
        cache_after(cache, updates.drop_last()).insert(cache_key(updates.last()), updates.last())
    }
}

/// What the observation at position `i` of `updates` emits, where the feed
/// started on `cache` and the clock read `from` and `to`.
pub open spec fn emitted_at(
    cache: Map<Seq<char>, ObservedView>,
    updates: Seq<ObservedView>,
    i: int,
    from: Timestamp,
    to: Timestamp,
) -> Option<ObjectDiffView> {
    emitted(cache_after(cache, updates.take(i)), updates[i], from, to)
}

impl View for ResourceCache {
    type V = Map<Seq<char>, ObservedView>;

    closed spec fn view(&self) -> Map<Seq<char>, ObservedView> {
        self.entries@.map_values(|object: Observed| object@)
    }
}

impl ResourceCache {
    /// A cache that has seen nothing.
    pub fn new() -> (cache: ResourceCache)
        ensures
            cache@ == Map::<Seq<char>, ObservedView>::empty(),
    {
        let cache = ResourceCache { entries: StringHashMap::new() };
        assert(cache@ =~= Map::<Seq<char>, ObservedView>::empty());
        cache
    }

    /// Whether a version of this identity was seen before.
    pub fn has_seen(&self, object: &Observed) -> (seen: bool)
        ensures
            seen == self@.contains_key(cache_key(object@)),
    {
        let key = object.key();
        self.entries.contains_key(key.as_str())
    }

    /// Folds `current` into the cache, with the clock readings handed in. The
    /// cache then holds `current` for its identity and is otherwise
    /// unchanged. A first sight emits nothing; a later one emits the change
    /// from the version that the cache held.
    pub fn observe_at(&mut self, current: Observed, from: Timestamp, to: Timestamp) -> (out: Option<
        ObjectDiff,
    >)
        ensures
            final(self)@ == old(self)@.insert(cache_key(current@), current@),
            diff_view(out) == emitted(old(self)@, current@, from, to),
            unchanged_text(old(self)@, current@) ==> emits_empty_diff(diff_view(out)),
    {
        let key = current.key();
        let out = match self.entries.get(key.as_str()) {
            Some(previous) => Some(current.diff_at(previous, from, to)),
            None => None,
        };
        self.entries.insert(key, current);
        assert(self@ =~= old(self)@.insert(cache_key(current@), current@));
        out
    }

    /// Folds `current` into the cache, reading the clock twice. The cache and
    /// the change are as `observe_at` gives them for the two readings, which
    /// an emitted change carries as its moments.
    pub fn observe(&mut self, current: Observed) -> (out: Option<ObjectDiff>)
        ensures
            final(self)@ == old(self)@.insert(cache_key(current@), current@),
            out is Some <==> old(self)@.contains_key(cache_key(current@)),
            out matches Some(diff) ==> diff_view(out) == emitted(
                old(self)@,
                current@,
                diff.from,
                diff.to,
            ),
            out matches Some(diff) ==> diff.from.is_reading() && diff.to.is_reading(),
            unchanged_text(old(self)@, current@) ==> emits_empty_diff(diff_view(out)),
    {
        let from = Timestamp::now();
        let to = Timestamp::now();
        self.observe_at(current, from, to)
    }
}

/// A run of updates leaves untouched whatever the cache held under a key that
/// none of them has.
pub proof fn lemma_cache_untouched(
    cache: Map<Seq<char>, ObservedView>,
    updates: Seq<ObservedView>,
    key: Seq<char>,
)
    requires
        forall|m: int| 0 <= m < updates.len() ==> cache_key(#[trigger] updates[m]) != key,
    ensures
        cache_after(cache, updates).contains_key(key) == cache.contains_key(key),
        cache.contains_key(key) ==> cache_after(cache, updates)[key] == cache[key],
    decreases updates.len(),
{
    if updates.len() > 0 {
        let rest = updates.drop_last();
        assert forall|m: int| 0 <= m < rest.len() implies cache_key(#[trigger] rest[m]) != key by {
            assert(rest[m] == updates[m]);
        }
        lemma_cache_untouched(cache, rest, key);
        assert(cache_key(updates[updates.len() - 1]) != key);
    }
}

/// After a run of updates the cache holds, for every identity among them,
/// the latest version of it.
pub proof fn lemma_cache_holds_latest(
    cache: Map<Seq<char>, ObservedView>,
    updates: Seq<ObservedView>,
    j: int,
)
    requires
        0 <= j < updates.len(),
        forall|m: int|
            j < m < updates.len() ==> cache_key(#[trigger] updates[m]) != cache_key(updates[j]),
    ensures
        cache_after(cache, updates).contains_key(cache_key(updates[j])),
        cache_after(cache, updates)[cache_key(updates[j])] == updates[j],
    decreases updates.len(),
{
    if j < updates.len() - 1 {
        let rest = updates.drop_last();
        assert(rest[j] == updates[j]);
        assert forall|m: int| j < m < rest.len() implies cache_key(#[trigger] rest[m])
            != cache_key(rest[j]) by {
            assert(rest[m] == updates[m]);
        }
        lemma_cache_holds_latest(cache, rest, j);
        assert(cache_key(updates[updates.len() - 1]) != cache_key(updates[j]));
    }
}

/// Every change record states the change from the version of the same
/// identity that was observed last before it: where `j` is the latest
/// position before `i` with the identity of `i`, the observation at `i` emits
/// the change from the version at `j` to the version at `i`, whatever the
/// cache held at the start and whatever other identities came between.
pub proof fn law_diff_follows_previous_version(
    cache: Map<Seq<char>, ObservedView>,
    updates: Seq<ObservedView>,
    j: int,
    i: int,
    from: Timestamp,
    to: Timestamp,
)
    requires
        0 <= j < i < updates.len(),
        cache_key(updates[j]) == cache_key(updates[i]),
        forall|m: int| j < m < i ==> cache_key(#[trigger] updates[m]) != cache_key(updates[i]),
    ensures
        emitted_at(cache, updates, i, from, to) == Some(
            delta(updates[j], updates[i], from, to),
        ),
{
    let seen = updates.take(i);
    assert(seen[j] == updates[j]);
    assert forall|m: int| j < m < seen.len() implies cache_key(#[trigger] seen[m]) != cache_key(
        seen[j],
    ) by {
        assert(seen[m] == updates[m]);
    }
    lemma_cache_holds_latest(cache, seen, j);
}

/// In a feed of versions of one identity, every observation but the first
/// emits exactly the change from the version before it: no version is
/// skipped and none is compared twice.
pub proof fn law_successive_versions(
    cache: Map<Seq<char>, ObservedView>,
    updates: Seq<ObservedView>,
    n: int,
    from: Timestamp,
    to: Timestamp,
)
    requires
        1 <= n < updates.len(),
        forall|a: int, b: int|
            0 <= a < updates.len() && 0 <= b < updates.len() ==> cache_key(#[trigger] updates[a])
                == cache_key(#[trigger] updates[b]),
    ensures
        emitted_at(cache, updates, n, from, to) == Some(
            delta(updates[n - 1], updates[n], from, to),
        ),
{
    law_diff_follows_previous_version(cache, updates, n - 1, n, from, to);
}

/// The first observation of an identity emits nothing: where the cache held
/// no version of it at the start and none came earlier in the feed, the
/// observation at `i` is silent.
pub proof fn law_first_observation_is_silent(
    cache: Map<Seq<char>, ObservedView>,
    updates: Seq<ObservedView>,
    i: int,
    from: Timestamp,
    to: Timestamp,
)
    requires
        0 <= i < updates.len(),
        !cache.contains_key(cache_key(updates[i])),
        forall|m: int| 0 <= m < i ==> cache_key(#[trigger] updates[m]) != cache_key(updates[i]),
    ensures
        emitted_at(cache, updates, i, from, to) is None,
{
    let seen = updates.take(i);
    assert forall|m: int| 0 <= m < seen.len() implies cache_key(#[trigger] seen[m]) != cache_key(
        updates[i],
    ) by {
        assert(seen[m] == updates[m]);
    }
    lemma_cache_untouched(cache, seen, cache_key(updates[i]));
}

} // verus!
