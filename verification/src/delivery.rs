//! The delivery layer's decisions: what a bounded window keeps of the merged
//! stream and when it stops waiting, and what a live subscriber is sent for
//! each answer of an adapter and when its session ends. The waiting itself
//! is the caller's.

use vstd::prelude::*;
use crate::adapter::{Emission, EmissionView, Reaction, ReactionView};
use crate::model::{diff_views, ObjectDiff, ObjectDiffView, StreamError};
use crate::wire::{encodable, object_diff_json};

verus! {

/// The window, in seconds, of a collection that names none.
pub const DEFAULT_TIMEOUT_SECS: u64 = 60;

/// What a bounded window is told while it waits.
pub enum Arrival {
    /// The merged stream yielded a change record.
    Diff(ObjectDiff),
    /// The merged stream yielded an error.
    Failed(StreamError),
    /// Every source has ended.
    Exhausted,
    /// The timer fired.
    Expired,
}

pub enum ArrivalView {
    Diff(ObjectDiffView),
    Failed(Seq<char>),
    Exhausted,
    Expired,
}

/// What the caller of a bounded window does next.
#[derive(Clone, Copy, Debug, PartialEq, Eq, Structural)]
pub enum Verdict {
    /// Wait for the next arrival.
    Wait,
    /// Stop waiting and hand out what was collected.
    Return,
}

/// A bounded-window collection in progress.
pub struct Window {
    pub collected: Vec<ObjectDiff>,
    pub closed: bool,
}

pub struct WindowView {
    pub collected: Seq<ObjectDiffView>,
    pub closed: bool,
}

/// One event sent to a live subscriber.
pub enum Frame {
    /// An event that carries an encoded change record.
    Data(String),
    /// An event without data, sent in place of a record that was skipped.
    Empty,
}

pub enum FrameView {
    Data(Seq<char>),
    Empty,
}

/// A live subscriber's session.
pub struct PushSession {
    pub closed: bool,
}

/// What a push session does with one answer of an adapter: the event to
/// send, if any, and whether to go on. Where it does not go on, the caller
/// ends the pushed stream, and the subscriber sees the connection dropped.
pub struct PushStep {
    pub frame: Option<Frame>,
    pub go_on: bool,
}

pub struct PushStepView {
    pub frame: Option<FrameView>,
    pub go_on: bool,
}

impl View for Arrival {
    type V = ArrivalView;

    open spec fn view(&self) -> ArrivalView {
        match *self {
            Arrival::Diff(d) => ArrivalView::Diff(d@),
            Arrival::Failed(e) => ArrivalView::Failed(e@),
            Arrival::Exhausted => ArrivalView::Exhausted,
            Arrival::Expired => ArrivalView::Expired,
        }
    }
}

impl View for Window {
    type V = WindowView;

    open spec fn view(&self) -> WindowView {
        WindowView { collected: diff_views(self.collected@), closed: self.closed }
    }
}

impl View for Frame {
    type V = FrameView;

    open spec fn view(&self) -> FrameView {
        match *self {
            Frame::Data(text) => FrameView::Data(text@),
            Frame::Empty => FrameView::Empty,
        }
    }
}

/// The view of an event that may be absent.
pub open spec fn frame_view(frame: Option<Frame>) -> Option<FrameView> {
    match frame {
        Some(f) => Some(f@),
        None => None,
    }
}

impl View for PushStep {
    type V = PushStepView;

    open spec fn view(&self) -> PushStepView {
        PushStepView { frame: frame_view(self.frame), go_on: self.go_on }
    }
}

/// The window after one arrival. An open window keeps a change record and
/// stays open; anything else closes it. A closed window keeps nothing more.
pub open spec fn window_step(window: WindowView, arrival: ArrivalView) -> WindowView {
    if window.closed {
        window
    } else {
        match arrival {
            ArrivalView::Diff(d) => WindowView {
                collected: window.collected.push(d),
                closed: false,
            },
            _ => WindowView { collected: window.collected, closed: true },
        }
    }
}

/// The window after a run of arrivals, in order.
pub open spec fn window_after(window: WindowView, arrivals: Seq<ArrivalView>) -> WindowView
    decreases arrivals.len(),
{
    if arrivals.len() == 0 {
        window
    } else {
        window_step(window_after(window, arrivals.drop_last()), arrivals.last())
    }
}

/// The window that has been told nothing yet.
pub open spec fn fresh_window() -> WindowView {
    WindowView { collected: Seq::empty(), closed: false }
}

/// The change records at the head of a run of arrivals, up to the first
/// arrival that is none.
pub open spec fn leading_diffs(arrivals: Seq<ArrivalView>) -> Seq<ObjectDiffView>
    decreases arrivals.len(),
{
    if arrivals.len() == 0 {
        Seq::empty()
    } else {
        match arrivals.first() {
            ArrivalView::Diff(d) => seq![d] + leading_diffs(arrivals.drop_first()),
            _ => Seq::empty(),
        }
    }
}

/// The timeout of a collection, in seconds: the one asked for, or the
/// default.
pub fn timeout_or_default(asked: Option<u64>) -> (secs: u64)
    ensures
        secs == match asked {
            Some(t) => t,
            None => DEFAULT_TIMEOUT_SECS,
        },
{
    match asked {
        Some(t) => t,
        None => DEFAULT_TIMEOUT_SECS,
    }
}

/// The event for one change record: the record on the wire, or an event
/// without data where the record cannot be encoded.
pub open spec fn frame_of(diff: ObjectDiffView) -> FrameView {
    match object_diff_json(diff) {
        Some(text) => FrameView::Data(text),
        None => FrameView::Empty,
    }
}

/// Whether an adapter's answer is a fatal error: an error after which the
/// adapter does not go on.
pub open spec fn is_fatal(reaction: ReactionView) -> bool {
    reaction.emission is Error && !reaction.go_on
}

/// Whether a push session is closed after one answer of an adapter. A fatal
/// error closes it, and a closed session stays closed.
pub open spec fn push_closed_after(closed: bool, reaction: ReactionView) -> bool {
    closed || is_fatal(reaction)
}

/// What a push session sends for one answer of an adapter. A change record
/// is sent as its event; an error that only skips a record is answered with
/// an event without data; for a fatal error nothing is sent at all, and
/// nothing where the adapter emitted nothing or the session is closed.
pub open spec fn push_frame(closed: bool, reaction: ReactionView) -> Option<FrameView> {
    if closed {
        None
    } else {
        match reaction.emission {
            EmissionView::Diff(diff) => Some(frame_of(diff)),
            EmissionView::Error(_) => if reaction.go_on {
                Some(FrameView::Empty)
            } else {
                None
            },
            EmissionView::Nothing => None,
        }
    }
}

/// What a push session does with one answer of an adapter.
pub open spec fn push_step(closed: bool, reaction: ReactionView) -> PushStepView {
    PushStepView {
        frame: push_frame(closed, reaction),
        go_on: !push_closed_after(closed, reaction),
    }
}

/// Whether a push session is closed after a run of answers, in order.
pub open spec fn push_closed_after_all(closed: bool, reactions: Seq<ReactionView>) -> bool
    decreases reactions.len(),
{
    if reactions.len() == 0 {
        closed
    } else {
        push_closed_after(push_closed_after_all(closed, reactions.drop_last()), reactions.last())
    }
}

/// Whether an adapter's answer carries a change record that can be put on
/// the wire.
pub open spec fn carries_encodable(reaction: ReactionView) -> bool {
    match reaction.emission {
        EmissionView::Diff(diff) => encodable(diff),
        _ => false,
    }
}

/// Whether an event is sent and carries data.
pub open spec fn is_data(frame: Option<FrameView>) -> bool {
    match frame {
        Some(FrameView::Data(_)) => true,
        _ => false,
    }
}

/// The event for one change record. It carries data exactly where the
/// record can be put on the wire.
pub fn frame(diff: &ObjectDiff) -> (out: Frame)
    ensures
        out@ == frame_of(diff@),
        out is Data <==> encodable(diff@),
{
    match diff.to_json() {
        Some(text) => Frame::Data(text),
        None => Frame::Empty,
    }
}

impl PushSession {
    /// An open session.
    pub fn new() -> (session: PushSession)
        ensures
            !session.closed,
    {
        PushSession { closed: false }
    }

    /// Takes one answer of an adapter and says what to send and whether to
    /// go on. The session goes on exactly while it is open. A change record
    /// that can be put on the wire is sent as data.
    pub fn step(&mut self, reaction: &Reaction) -> (out: PushStep)
        ensures
            final(self).closed == push_closed_after(old(self).closed, reaction@),
            out@ == push_step(old(self).closed, reaction@),
            !old(self).closed && carries_encodable(reaction@) ==> is_data(out@.frame),
    {
        if self.closed {
            return PushStep { frame: None, go_on: false };
        }
        match &reaction.emission {
            Emission::Diff(diff) => PushStep { frame: Some(frame(diff)), go_on: true },
            Emission::Error(_) => {
                if reaction.go_on {
                    PushStep { frame: Some(Frame::Empty), go_on: true }
                } else {
                    self.closed = true;
                    PushStep { frame: None, go_on: false }
                }
            },
            Emission::Nothing => PushStep { frame: None, go_on: true },
        }
    }
}

impl Window {
    /// An open window that has collected nothing.
    pub fn new() -> (window: Window)
        ensures
            window@ == fresh_window(),
    {
        let window = Window { collected: Vec::new(), closed: false };
        assert(window@.collected =~= Seq::empty());
        window
    }

    /// Takes one arrival and says whether to go on waiting. The window goes
    /// on exactly while it is open.
    pub fn step(&mut self, arrival: Arrival) -> (verdict: Verdict)
        ensures
            final(self)@ == window_step(old(self)@, arrival@),
            verdict == if final(self).closed {
                Verdict::Return
            } else {
                Verdict::Wait
            },
    {
        if self.closed {
            return Verdict::Return;
        }
        match arrival {
            Arrival::Diff(d) => {
                self.collected.push(d);
                assert(self@.collected =~= old(self)@.collected.push(d@));
                Verdict::Wait
            },
            _ => {
                self.closed = true;
                Verdict::Return
            },
        }
    }

    /// Hands out what was collected, in the order of arrival.
    pub fn into_collected(self) -> (out: Vec<ObjectDiff>)
        ensures
            out == self.collected,
            diff_views(out@) == self@.collected,
    {
        self.collected
    }
}

/// A window that has closed stays as it is, whatever arrives.
pub proof fn law_closed_window_is_final(window: WindowView, arrivals: Seq<ArrivalView>)
    requires
        window.closed,
    ensures
        window_after(window, arrivals) == window,
    decreases arrivals.len(),
{
    if arrivals.len() > 0 {
        law_closed_window_is_final(window, arrivals.drop_last());
    }
}

/// Running on `head` and then on `tail` is running on both in a row.
pub proof fn lemma_window_after_concat(
    window: WindowView,
    head: Seq<ArrivalView>,
    tail: Seq<ArrivalView>,
)
    ensures
        window_after(window, head + tail) == window_after(window_after(window, head), tail),
    decreases tail.len(),
{
    if tail.len() == 0 {
        assert(head + tail =~= head);
    } else {
        assert((head + tail).drop_last() =~= head + tail.drop_last());
        assert((head + tail).last() == tail.last());
        lemma_window_after_concat(window, head, tail.drop_last());
    }
}

/// A window never loses what it has collected: what it holds before further
/// arrivals is a prefix of what it holds after them.
pub proof fn lemma_window_grows(window: WindowView, arrivals: Seq<ArrivalView>)
    ensures
        window.collected.is_prefix_of(window_after(window, arrivals).collected),
    decreases arrivals.len(),
{
    if arrivals.len() > 0 {
        lemma_window_grows(window, arrivals.drop_last());
    }
}

/// A window cut short holds a prefix of what a longer run would have
/// collected: stopping after the first `k` arrivals gives the head of the
/// list that all the arrivals give.
pub proof fn law_window_prefix_consistent(arrivals: Seq<ArrivalView>, k: int)
    requires
        0 <= k <= arrivals.len(),
    ensures
        window_after(fresh_window(), arrivals.take(k)).collected.is_prefix_of(
            window_after(fresh_window(), arrivals).collected,
        ),
{
    assert(arrivals =~= arrivals.take(k) + arrivals.skip(k));
    lemma_window_after_concat(fresh_window(), arrivals.take(k), arrivals.skip(k));
    lemma_window_grows(window_after(fresh_window(), arrivals.take(k)), arrivals.skip(k));
}

/// A window collects exactly the change records that arrive before the first
/// error, end of stream or expiry, in their order: none is lost and none is
/// added.
pub proof fn law_window_collects_leading_diffs(arrivals: Seq<ArrivalView>)
    ensures
        window_after(fresh_window(), arrivals).collected == leading_diffs(arrivals),
        window_after(fresh_window(), arrivals).closed <==> leading_diffs(arrivals).len()
            < arrivals.len(),
    decreases arrivals.len(),
{
    if arrivals.len() > 0 {
        let rest = arrivals.drop_last();
        law_window_collects_leading_diffs(rest);
        lemma_leading_diffs_push(rest, arrivals.last());
        assert(rest.push(arrivals.last()) =~= arrivals);
    }
}

/// How the leading change records grow when one more arrival is appended.
pub proof fn lemma_leading_diffs_push(arrivals: Seq<ArrivalView>, next: ArrivalView)
    ensures
        leading_diffs(arrivals).len() <= arrivals.len(),
        leading_diffs(arrivals.push(next)) == if leading_diffs(arrivals).len() < arrivals.len() {
            leading_diffs(arrivals)
        } else {
            match next {
                ArrivalView::Diff(d) => leading_diffs(arrivals).push(d),
                _ => leading_diffs(arrivals),
            }
        },
    decreases arrivals.len(),
{
    if arrivals.len() == 0 {
        assert(arrivals.push(next).drop_first() =~= Seq::<ArrivalView>::empty());
        assert(leading_diffs(arrivals.push(next).drop_first()) =~= Seq::empty());
        match next {
            ArrivalView::Diff(d) => {
                assert(seq![d] + Seq::<ObjectDiffView>::empty() =~= Seq::<ObjectDiffView>::empty().push(d));
            },
            _ => {},
        }
    } else {
        let longer = arrivals.push(next);
        assert(longer.first() == arrivals.first());
        assert(longer.drop_first() =~= arrivals.drop_first().push(next));
        lemma_leading_diffs_push(arrivals.drop_first(), next);
        match arrivals.first() {
            ArrivalView::Diff(d) => {
                let tail = leading_diffs(arrivals.drop_first());
                match next {
                    ArrivalView::Diff(e) => {
                        assert(seq![d] + tail.push(e) =~= (seq![d] + tail).push(e));
                    },
                    _ => {},
                }
            },
            _ => {},
        }
    }
}

/// A push session that has closed stays closed, whatever follows.
pub proof fn law_closed_session_stays_closed(reactions: Seq<ReactionView>)
    ensures
        push_closed_after_all(true, reactions),
    decreases reactions.len(),
{
    if reactions.len() > 0 {
        law_closed_session_stays_closed(reactions.drop_last());
    }
}

/// A push session is closed after a run of answers exactly where one of
/// them is a fatal error.
pub proof fn lemma_session_closes_on_fatal(reactions: Seq<ReactionView>)
    ensures
        push_closed_after_all(false, reactions) <==> exists|i: int|
            0 <= i < reactions.len() && is_fatal(#[trigger] reactions[i]),
    decreases reactions.len(),
{
    if reactions.len() > 0 {
        let rest = reactions.drop_last();
        lemma_session_closes_on_fatal(rest);
        if push_closed_after_all(false, rest) {
            let i = choose|i: int| 0 <= i < rest.len() && is_fatal(#[trigger] rest[i]);
            assert(is_fatal(reactions[i]));
        } else if is_fatal(reactions.last()) {
            assert(is_fatal(reactions[reactions.len() - 1]));
        } else {
            assert forall|i: int| 0 <= i < reactions.len() implies !is_fatal(
                #[trigger] reactions[i],
            ) by {
                if i < rest.len() {
                    assert(rest[i] == reactions[i]);
                }
            }
        }
    }
}

/// A fatal error ends the push session: for the error itself and for
/// whatever an adapter answers after it nothing is sent, and the session
/// does not go on.
pub proof fn law_fatal_error_ends_the_session(reactions: Seq<ReactionView>, i: int, j: int)
    requires
        0 <= i <= j < reactions.len(),
        is_fatal(reactions[i]),
    ensures
        push_step(push_closed_after_all(false, reactions.take(j)), reactions[j]) == (PushStepView {
            frame: None,
            go_on: false,
        }),
{
    let before = reactions.take(j);
    lemma_session_closes_on_fatal(before);
    if i < j {
        assert(before[i] == reactions[i]);
    }
}

/// Until a fatal error comes, the push session stays open and answers every
/// change record with its event and every skipped record with an event
/// without data.
pub proof fn law_session_serves_until_fatal(reactions: Seq<ReactionView>, j: int)
    requires
        0 <= j < reactions.len(),
        forall|i: int| 0 <= i <= j ==> !is_fatal(#[trigger] reactions[i]),
    ensures
        push_step(push_closed_after_all(false, reactions.take(j)), reactions[j]) == (PushStepView {
            frame: match reactions[j].emission {
                EmissionView::Diff(diff) => Some(frame_of(diff)),
                EmissionView::Error(_) => Some(FrameView::Empty),
                EmissionView::Nothing => None,
            },
            go_on: true,
        }),
{
    let before = reactions.take(j);
    lemma_session_closes_on_fatal(before);
    assert forall|i: int| 0 <= i < before.len() implies !is_fatal(#[trigger] before[i]) by {
        assert(before[i] == reactions[i]);
    }
}

} // verus!
