//! Whole feeds: what a run of observations emits in all, and what it emits
//! for each identity.

use vstd::prelude::*;
use crate::adapter::{
    adapter_after_all, applied, lemma_adapter_folds_applied, reaction_to, EmissionView,
    NotificationView, WatchAdapterView,
};
use crate::cache::{cache_after, emitted};
use crate::model::{ObjectDiffView, Timestamp};
use crate::text::locator_text;
use crate::watcher::{cache_key, delta, ObservedView};

verus! {

/// One observation of a feed: the version observed, and the two readings of
/// the clock that a change emitted for it carries.
pub struct Observation {
    pub object: ObservedView,
    pub from: Timestamp,
    pub to: Timestamp,
}

/// The versions of a feed, in order.
pub open spec fn objects_of(feed: Seq<Observation>) -> Seq<ObservedView> {
    Seq::new(feed.len(), |i: int| feed[i].object)
}

/// All that a feed emits, in order, where it starts on `cache`.
pub open spec fn emitted_all(
    cache: Map<Seq<char>, ObservedView>,
    feed: Seq<Observation>,
) -> Seq<ObjectDiffView>
    decreases feed.len(),
{
    if feed.len() == 0 {
        Seq::empty()
    } else {
        let before = emitted_all(cache, feed.drop_last());
        let last = feed.last();
        match emitted(
            cache_after(cache, objects_of(feed.drop_last())),
            last.object,
            last.from,
            last.to,
        ) {
            Some(diff) => before.push(diff),
            None => before,
        }
    }
}

/// The identities that occur in a feed.
pub open spec fn identities(feed: Seq<Observation>) -> Set<Seq<char>>
    decreases feed.len(),
{
    if feed.len() == 0 {
        Set::empty()
    } else {
        identities(feed.drop_last()).insert(cache_key(feed.last().object))
    }
}

/// The observations of a feed that are of identity `key`, in order.
pub open spec fn versions_of(feed: Seq<Observation>, key: Seq<char>) -> Seq<Observation> {
    feed.filter(|o: Observation| cache_key(o.object) == key)
}

/// The change records among `records` that are of identity `key`, in order.
pub open spec fn records_of(records: Seq<ObjectDiffView>, key: Seq<char>) -> Seq<ObjectDiffView> {
    records.filter(|d: ObjectDiffView| locator_text(d.locator) == key)
}

/// The identities of a feed are the keys of its observations.
pub proof fn lemma_identities(feed: Seq<Observation>, key: Seq<char>)
    ensures
        identities(feed).finite(),
        identities(feed).contains(key) <==> exists|i: int|
            0 <= i < feed.len() && cache_key(#[trigger] feed[i].object) == key,
    decreases feed.len(),
{
    if feed.len() > 0 {
        let rest = feed.drop_last();
        lemma_identities(rest, key);
        if identities(rest).contains(key) {
            let i = choose|i: int| 0 <= i < rest.len() && cache_key(#[trigger] rest[i].object) == key;
            assert(cache_key(feed[i].object) == key);
        } else if cache_key(feed.last().object) == key {
            assert(cache_key(feed[feed.len() - 1].object) == key);
        } else {
            assert forall|i: int| 0 <= i < feed.len() implies cache_key(#[trigger] feed[i].object)
                != key by {
                if i < rest.len() {
                    assert(rest[i] == feed[i]);
                }
            }
        }
    }
}

/// After a feed the cache holds a version of every identity that it held
/// before or that occurs in the feed, and of no other.
pub proof fn lemma_cached_identities(cache: Map<Seq<char>, ObservedView>, feed: Seq<Observation>)
    ensures
        cache_after(cache, objects_of(feed)).dom() == cache.dom().union(identities(feed)),
    decreases feed.len(),
{
    if feed.len() == 0 {
        assert(cache.dom().union(identities(feed)) =~= cache.dom());
    } else {
        let rest = feed.drop_last();
        lemma_cached_identities(cache, rest);
        assert(objects_of(feed).drop_last() =~= objects_of(rest));
        assert(objects_of(feed).last() == feed.last().object);
        assert(cache_after(cache, objects_of(feed)).dom() =~= cache.dom().union(identities(feed)));
    }
}

/// Every observation either shows a new identity or emits one change record:
/// the records emitted and the identities cached grow, together, by one for
/// each observation.
pub proof fn law_emitted_count(cache: Map<Seq<char>, ObservedView>, feed: Seq<Observation>)
    requires
        cache.dom().finite(),
    ensures
        cache_after(cache, objects_of(feed)).dom().finite(),
        emitted_all(cache, feed).len() + cache_after(cache, objects_of(feed)).dom().len()
            == feed.len() + cache.dom().len(),
    decreases feed.len(),
{
    if feed.len() > 0 {
        let rest = feed.drop_last();
        law_emitted_count(cache, rest);
        assert(objects_of(feed).drop_last() =~= objects_of(rest));
        assert(objects_of(feed).last() == feed.last().object);
        let held = cache_after(cache, objects_of(rest));
        let key = cache_key(feed.last().object);
        assert(cache_after(cache, objects_of(feed)).dom() == held.dom().insert(key));
    }
}

/// A feed that starts on an empty cache emits as many change records as it
/// has observations, less one for each identity that occurs in it.
pub proof fn law_emitted_count_from_empty(feed: Seq<Observation>)
    ensures
        identities(feed).finite(),
        emitted_all(Map::empty(), feed).len() == feed.len() - identities(feed).len(),
{
    let cache = Map::<Seq<char>, ObservedView>::empty();
    lemma_identities(feed, Seq::empty());
    law_emitted_count(cache, feed);
    lemma_cached_identities(cache, feed);
    assert(cache.dom().union(identities(feed)) =~= identities(feed));
    assert(cache.dom() =~= Set::<Seq<char>>::empty());
}

/// For an identity that the cache did not hold at the start, a feed emits
/// one change record less than it has versions of that identity, and the
/// records are the changes between consecutive versions, in the order of
/// arrival: no version is skipped and none is used twice, whatever other
/// identities come between.
pub proof fn law_records_of_one_identity(
    cache: Map<Seq<char>, ObservedView>,
    feed: Seq<Observation>,
    key: Seq<char>,
)
    requires
        !cache.contains_key(key),
    ensures
        records_of(emitted_all(cache, feed), key).len() == if versions_of(feed, key).len() == 0 {
            0
        } else {
            versions_of(feed, key).len() - 1
        },
        forall|j: int|
            0 <= j < records_of(emitted_all(cache, feed), key).len() ==> #[trigger] records_of(
                emitted_all(cache, feed),
                key,
            )[j] == delta(
                versions_of(feed, key)[j].object,
                versions_of(feed, key)[j + 1].object,
                versions_of(feed, key)[j + 1].from,
                versions_of(feed, key)[j + 1].to,
            ),
        cache_after(cache, objects_of(feed)).contains_key(key) <==> versions_of(feed, key).len() > 0,
        versions_of(feed, key).len() > 0 ==> cache_after(cache, objects_of(feed))[key]
            == versions_of(feed, key).last().object,
    decreases feed.len(),
{
    reveal(Seq::filter);
    if feed.len() > 0 {
        let rest = feed.drop_last();
        let last = feed.last();
        law_records_of_one_identity(cache, rest, key);
        assert(objects_of(feed).drop_last() =~= objects_of(rest));
        assert(objects_of(feed).last() == last.object);
        let held = cache_after(cache, objects_of(rest));
        let before = emitted_all(cache, rest);
        match emitted(held, last.object, last.from, last.to) {
            Some(diff) => {
                assert(emitted_all(cache, feed) == before.push(diff));
                assert(before.push(diff).drop_last() =~= before);
                assert(before.push(diff).last() == diff);
                assert(locator_text(diff.locator) == cache_key(last.object));
            },
            None => {
                assert(emitted_all(cache, feed) == before);
            },
        }
    }
}

/// The change records that an adapter puts on its stream while the versions
/// of a feed are applied to it one after another.
pub open spec fn yielded(adapter: WatchAdapterView, feed: Seq<Observation>) -> Seq<ObjectDiffView>
    decreases feed.len(),
{
    if feed.len() == 0 {
        Seq::empty()
    } else {
        let before = yielded(adapter, feed.drop_last());
        let last = feed.last();
        match reaction_to(
            adapter_after_all(adapter, applied(objects_of(feed.drop_last()))),
            NotificationView::Applied(last.object),
            last.from,
            last.to,
        ).emission {
            EmissionView::Diff(diff) => before.push(diff),
            _ => before,
        }
    }
}

/// An adapter that has not finished puts on its stream exactly what the feed
/// emits from the adapter's cache, so what holds of the one holds of the
/// other: the count of the records, and the records of each identity.
pub proof fn law_adapter_yields_what_the_feed_emits(
    adapter: WatchAdapterView,
    feed: Seq<Observation>,
)
    requires
        !adapter.finished,
    ensures
        yielded(adapter, feed) == emitted_all(adapter.cache, feed),
    decreases feed.len(),
{
    if feed.len() > 0 {
        law_adapter_yields_what_the_feed_emits(adapter, feed.drop_last());
        lemma_adapter_folds_applied(adapter, objects_of(feed.drop_last()));
    }
}

} // verus!
