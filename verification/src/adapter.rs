//! The watch adapter: what one kind's watch session does with each
//! notification it is handed, and when it ends. The session itself, with its
//! waiting and its retries, is the caller's.

use vstd::prelude::*;
use crate::cache::{
    cache_after, emitted, law_diff_follows_previous_version, law_first_observation_is_silent,
    unchanged_text, ResourceCache,
};
use crate::model::{ObjectDiff, ObjectDiffView, StreamError, Timestamp};
use crate::watcher::{cache_key, delta, Observed, ObservedView};

verus! {

/// What a watch session hands its adapter.
pub enum Notification {
    /// An object was created or updated, and has been rendered.
    Applied(Observed),
    /// An object was created or updated, and could not be rendered.
    Unrendered(StreamError),
    /// The session failed in a way that no retry mends.
    Failed(StreamError),
    /// The session ended.
    Ended,
}

pub enum NotificationView {
    Applied(ObservedView),
    Unrendered(Seq<char>),
    Failed(Seq<char>),
    Ended,
}

/// What the adapter puts on its stream for one notification.
pub enum Emission {
    Nothing,
    Diff(ObjectDiff),
    Error(StreamError),
}

pub enum EmissionView {
    Nothing,
    Diff(ObjectDiffView),
    Error(Seq<char>),
}

/// The adapter's answer to one notification: what to put on the stream, and
/// whether to go on with the session.
pub struct Reaction {
    pub emission: Emission,
    pub go_on: bool,
}

pub struct ReactionView {
    pub emission: EmissionView,
    pub go_on: bool,
}

/// The adapter of one kind: the cache that it alone writes, and whether its
/// stream has ended.
pub struct WatchAdapter {
    cache: ResourceCache,
    finished: bool,
}

pub struct WatchAdapterView {
    pub cache: Map<Seq<char>, ObservedView>,
    pub finished: bool,
}

impl View for Notification {
    type V = NotificationView;

    open spec fn view(&self) -> NotificationView {
        match *self {
            Notification::Applied(object) => NotificationView::Applied(object@),
            Notification::Unrendered(error) => NotificationView::Unrendered(error@),
            Notification::Failed(error) => NotificationView::Failed(error@),
            Notification::Ended => NotificationView::Ended,
        }
    }
}

impl View for Emission {
    type V = EmissionView;

    open spec fn view(&self) -> EmissionView {
        match *self {
            Emission::Nothing => EmissionView::Nothing,
            Emission::Diff(diff) => EmissionView::Diff(diff@),
            Emission::Error(error) => EmissionView::Error(error@),
        }
    }
}

impl View for Reaction {
    type V = ReactionView;

    open spec fn view(&self) -> ReactionView {
        ReactionView { emission: self.emission@, go_on: self.go_on }
    }
}

impl View for WatchAdapter {
    type V = WatchAdapterView;

    closed spec fn view(&self) -> WatchAdapterView {
        WatchAdapterView { cache: self.cache@, finished: self.finished }
    }
}

/// The adapter after one notification. An applied object is folded into the
/// cache; an object that could not be rendered leaves the adapter as it was;
/// a failure or the end of the session finishes it. A finished adapter stays
/// as it is.
pub open spec fn adapter_after(
    adapter: WatchAdapterView,
    notification: NotificationView,
) -> WatchAdapterView {
    if adapter.finished {
        adapter
    } else {
        match notification {
            NotificationView::Applied(object) => WatchAdapterView {
                cache: adapter.cache.insert(cache_key(object), object),
                finished: false,
            },
            NotificationView::Unrendered(_) => adapter,
            NotificationView::Failed(_) => WatchAdapterView { cache: adapter.cache, finished: true },
            NotificationView::Ended => WatchAdapterView { cache: adapter.cache, finished: true },
        }
    }
}

/// The adapter's answer to one notification, where the clock read `from` and
/// `to`. An applied object emits what the cache makes of it. An object that
/// could not be rendered emits its error, and the session goes on. A failure
/// emits its error and ends the stream; the end of the session ends it
/// silently. A finished adapter emits nothing.
pub open spec fn reaction_to(
    adapter: WatchAdapterView,
    notification: NotificationView,
    from: Timestamp,
    to: Timestamp,
) -> ReactionView {
    if adapter.finished {
        ReactionView { emission: EmissionView::Nothing, go_on: false }
    } else {
        match notification {
            NotificationView::Applied(object) => ReactionView {
                emission: match emitted(adapter.cache, object, from, to) {
                    Some(diff) => EmissionView::Diff(diff),
                    None => EmissionView::Nothing,
                },
                go_on: true,
            },
            NotificationView::Unrendered(error) => ReactionView {
                emission: EmissionView::Error(error),
                go_on: true,
            },
            NotificationView::Failed(error) => ReactionView {
                emission: EmissionView::Error(error),
                go_on: false,
            },
            NotificationView::Ended => ReactionView { emission: EmissionView::Nothing, go_on: false },
        }
    }
}

/// Whether a notification applies a version whose serialisation the adapter
/// holds already for that identity.
pub open spec fn applies_unchanged_text(
    adapter: WatchAdapterView,
    notification: NotificationView,
) -> bool {
    !adapter.finished && match notification {
        NotificationView::Applied(object) => unchanged_text(adapter.cache, object),
        _ => false,
    }
}

/// Whether an emission is a change with an empty diff.
pub open spec fn is_empty_diff(emission: EmissionView) -> bool {
    match emission {
        EmissionView::Diff(diff) => diff.change.diff == Seq::<char>::empty(),
        _ => false,
    }
}

/// What an emission puts on a stream of results: nothing, a change record
/// or an error.
pub open spec fn item_of(emission: Emission) -> Option<Result<ObjectDiff, StreamError>> {
    match emission {
        Emission::Nothing => None,
        Emission::Diff(diff) => Some(Ok(diff)),
        Emission::Error(error) => Some(Err(error)),
    }
}

impl Reaction {
    /// The item that this answer puts on the adapter's stream, if any.
    pub fn into_item(self) -> (out: Option<Result<ObjectDiff, StreamError>>)
        ensures
            out == item_of(self.emission),
    {
        match self.emission {
            Emission::Nothing => None,
            Emission::Diff(diff) => Some(Ok(diff)),
            Emission::Error(error) => Some(Err(error)),
        }
    }
}

impl WatchAdapter {
    /// An adapter that has seen nothing.
    pub fn new() -> (adapter: WatchAdapter)
        ensures
            adapter@ == (WatchAdapterView { cache: Map::empty(), finished: false }),
    {
        WatchAdapter { cache: ResourceCache::new(), finished: false }
    }

    /// Whether the adapter's stream has ended.
    pub fn is_finished(&self) -> (finished: bool)
        ensures
            finished == self@.finished,
    {
        self.finished
    }

    /// Takes one notification, with the clock readings handed in.
    pub fn handle_at(&mut self, notification: Notification, from: Timestamp, to: Timestamp) -> (out:
        Reaction)
        ensures
            final(self)@ == adapter_after(old(self)@, notification@),
            out@ == reaction_to(old(self)@, notification@, from, to),
            applies_unchanged_text(old(self)@, notification@) ==> is_empty_diff(out@.emission),
    {
        if self.finished {
            return Reaction { emission: Emission::Nothing, go_on: false };
        }
        match notification {
            Notification::Applied(object) => {
                let emission = match self.cache.observe_at(object, from, to) {
                    Some(diff) => Emission::Diff(diff),
                    None => Emission::Nothing,
                };
                Reaction { emission, go_on: true }
            },
            Notification::Unrendered(error) => Reaction {
                emission: Emission::Error(error),
                go_on: true,
            },
            Notification::Failed(error) => {
                self.finished = true;
                Reaction { emission: Emission::Error(error), go_on: false }
            },
            Notification::Ended => {
                self.finished = true;
                Reaction { emission: Emission::Nothing, go_on: false }
            },
        }
    }

    /// Takes one notification, reading the clock twice. The adapter and its
    /// answer are as `handle_at` gives them for the two readings.
    pub fn handle(&mut self, notification: Notification) -> (out: Reaction)
        ensures
            final(self)@ == adapter_after(old(self)@, notification@),
            exists|from: Timestamp, to: Timestamp|
                from.is_reading() && to.is_reading() && out@ == #[trigger] reaction_to(
                    old(self)@,
                    notification@,
                    from,
                    to,
                ),
            applies_unchanged_text(old(self)@, notification@) ==> is_empty_diff(out@.emission),
    {
        let from = Timestamp::now();
        let to = Timestamp::now();
        let out = self.handle_at(notification, from, to);
        assert(from.is_reading() && to.is_reading() && out@ == reaction_to(
            old(self)@,
            notification@,
            from,
            to,
        ));
        out
    }
}

/// The adapter after a run of notifications, in order.
pub open spec fn adapter_after_all(
    adapter: WatchAdapterView,
    notifications: Seq<NotificationView>,
) -> WatchAdapterView
    decreases notifications.len(),
{
    if notifications.len() == 0 {
        adapter
    } else {
        adapter_after(adapter_after_all(adapter, notifications.drop_last()), notifications.last())
    }
}

/// A feed in which every notification is an applied object.
pub open spec fn applied(objects: Seq<ObservedView>) -> Seq<NotificationView> {
    Seq::new(objects.len(), |i: int| NotificationView::Applied(objects[i]))
}

/// A feed of applied objects leaves the adapter unfinished, with the cache
/// that observing the objects in order gives.
pub proof fn lemma_adapter_folds_applied(adapter: WatchAdapterView, objects: Seq<ObservedView>)
    requires
        !adapter.finished,
    ensures
        adapter_after_all(adapter, applied(objects)) == (WatchAdapterView {
            cache: cache_after(adapter.cache, objects),
            finished: false,
        }),
    decreases objects.len(),
{
    if objects.len() > 0 {
        lemma_adapter_folds_applied(adapter, objects.drop_last());
        assert(applied(objects).drop_last() =~= applied(objects.drop_last()));
        assert(applied(objects).last() == NotificationView::Applied(objects.last()));
    }
}

/// While versions of one identity are applied one after another, the adapter
/// emits for every version but the first exactly the change from the version
/// before it.
pub proof fn law_adapter_emits_successive_changes(
    adapter: WatchAdapterView,
    objects: Seq<ObservedView>,
    n: int,
    from: Timestamp,
    to: Timestamp,
)
    requires
        !adapter.finished,
        1 <= n < objects.len(),
        forall|a: int, b: int|
            0 <= a < objects.len() && 0 <= b < objects.len() ==> cache_key(#[trigger] objects[a])
                == cache_key(#[trigger] objects[b]),
    ensures
        reaction_to(
            adapter_after_all(adapter, applied(objects.take(n))),
            NotificationView::Applied(objects[n]),
            from,
            to,
        ) == (ReactionView {
            emission: EmissionView::Diff(delta(objects[n - 1], objects[n], from, to)),
            go_on: true,
        }),
{
    lemma_adapter_folds_applied(adapter, objects.take(n));
    law_diff_follows_previous_version(adapter.cache, objects, n - 1, n, from, to);
}

/// The adapter emits nothing for the first version of an identity: where its
/// cache held none at the start and none was applied before, the session goes
/// on in silence.
pub proof fn law_adapter_is_silent_on_first_sight(
    adapter: WatchAdapterView,
    objects: Seq<ObservedView>,
    i: int,
    from: Timestamp,
    to: Timestamp,
)
    requires
        !adapter.finished,
        0 <= i < objects.len(),
        !adapter.cache.contains_key(cache_key(objects[i])),
        forall|m: int| 0 <= m < i ==> cache_key(#[trigger] objects[m]) != cache_key(objects[i]),
    ensures
        reaction_to(
            adapter_after_all(adapter, applied(objects.take(i))),
            NotificationView::Applied(objects[i]),
            from,
            to,
        ) == (ReactionView { emission: EmissionView::Nothing, go_on: true }),
{
    lemma_adapter_folds_applied(adapter, objects.take(i));
    law_first_observation_is_silent(adapter.cache, objects, i, from, to);
}

/// Once its stream has ended an adapter emits nothing more and stays as it
/// is, whatever it is handed.
pub proof fn law_finished_adapter_is_silent(
    adapter: WatchAdapterView,
    notifications: Seq<NotificationView>,
    next: NotificationView,
    from: Timestamp,
    to: Timestamp,
)
    requires
        adapter.finished,
    ensures
        adapter_after_all(adapter, notifications) == adapter,
        reaction_to(adapter_after_all(adapter, notifications), next, from, to) == (ReactionView {
            emission: EmissionView::Nothing,
            go_on: false,
        }),
    decreases notifications.len(),
{
    if notifications.len() > 0 {
        law_finished_adapter_is_silent(adapter, notifications.drop_last(), next, from, to);
    }
}

} // verus!
