use vstd::prelude::*;
use vstd::multiset::Multiset;
use crate::feed::Feed;
use tokio_util::time::DelayQueue;
use tokio::sync::Notify;
use std::task::Context;
use std::task::Poll;
use std::time::Duration;

verus! {

/// `tokio_util::time::DelayQueue`, taken as an opaque collection of timed
/// entries.
#[verifier::external_type_specification]
#[verifier::external_body]
#[verifier::reject_recursive_types(T)]
pub struct ExDelayQueue<T>(DelayQueue<T>);

/// `tokio::sync::Notify`, carried through as an opaque value.
#[verifier::external_type_specification]
#[verifier::external_body]
pub struct ExNotify(Notify);

/// `std::task::Context`, handed on to the timers as an opaque value.
#[verifier::external_type_specification]
#[verifier::external_body]
pub struct ExContext<'a>(Context<'a>);

/// The values that a delay queue of feed links holds, each as often as it
/// was inserted and not yet handed out.
pub uninterp spec fn timer_items(timers: DelayQueue<String>) -> Multiset<Seq<char>>;

/// Most entries that a delay queue accepts.
pub const MAX_ENTRIES: usize = 1073741823;

/// Longest delay, in seconds, that the queue is asked to hold: one year,
/// which the timer wheel of the delay queue can represent with room to spare.
pub const MAX_DELAY_SECS: u64 = 31536000;

/// What polling the timers gave.
pub(crate) enum Expiry {
    /// Entries are waiting and none is due yet.
    Pending,
    /// The queue holds no entry.
    Empty,
    /// This entry's delay has elapsed; it has left the queue.
    Due(String),
}

/// `DelayQueue::new`: a queue without entries.
#[verifier::external_body]
fn timers_new() -> (timers: DelayQueue<String>)
    ensures
        timer_items(timers) == Multiset::<Seq<char>>::empty(),
{
    DelayQueue::new()
}

/// `DelayQueue::insert`: adds `link` to the entries, due `delay_secs`
/// seconds from now. Must run inside a Tokio runtime with timers enabled.
#[verifier::external_body]
fn timers_insert(timers: &mut DelayQueue<String>, link: String, delay_secs: u64)
    requires
        timer_items(*old(timers)).len() < MAX_ENTRIES,
        delay_secs <= MAX_DELAY_SECS,
    ensures
        timer_items(*final(timers)) == timer_items(*old(timers)).insert(link@),
{
    timers.insert(link, Duration::from_secs(delay_secs));
}

/// `DelayQueue::poll_expired`: hands out one entry whose delay has elapsed
/// and removes it; reports an empty queue as such; otherwise leaves the
/// entries as they are and registers the caller's waker.
#[verifier::external_body]
fn timers_poll(timers: &mut DelayQueue<String>, cx: &mut Context<'_>) -> (expiry: Expiry)
    ensures
        match expiry {
            Expiry::Pending => timer_items(*final(timers)) == timer_items(*old(timers)),
            Expiry::Empty => timer_items(*final(timers)) == timer_items(*old(timers))
                && timer_items(*old(timers)) == Multiset::<Seq<char>>::empty(),
            Expiry::Due(link) => timer_items(*old(timers)).count(link@) > 0
                && timer_items(*final(timers)) == timer_items(*old(timers)).remove(link@),
        },
{
    match timers.poll_expired(cx) {
        Poll::Pending => Expiry::Pending,
        Poll::Ready(None) => Expiry::Empty,
        Poll::Ready(Some(expired)) => Expiry::Due(expired.into_inner()),
    }
}

/// `Notify::new`.
#[verifier::external_body]
fn wakeup_new() -> Notify {
    Notify::new()
}

/// `Notify::notify_waiters`: wakes every task that waits on `wakeup`.
#[verifier::external_body]
fn wake_waiters(wakeup: &Notify) {
    wakeup.notify_waiters();
}

/// The links of `feeds`, in their order.
pub open spec fn links(feeds: Seq<Feed>) -> Seq<Seq<char>> {
    Seq::new(feeds.len(), |i: int| feeds[i].link@)
}

/// A feed with this link is among `feeds`.
pub open spec fn has_link(feeds: Seq<Feed>, link: Seq<char>) -> bool {
    exists|i: int| 0 <= i < feeds.len() && #[trigger] feeds[i].link@ == link
}

/// No two of `feeds` share a link.
pub open spec fn distinct_links(feeds: Seq<Feed>) -> bool {
    forall|i: int, j: int|
        0 <= i < j < feeds.len() ==> #[trigger] feeds[i].link@ != #[trigger] feeds[j].link@
}

/// The waiting feeds after one `enqueue`, and whether the feed was admitted:
/// it is, at the end, unless its link is waiting already.
pub open spec fn spec_enqueue(pending: Seq<Feed>, feed: Feed) -> (Seq<Feed>, bool) {
    if has_link(pending, feed.link@) {
        (pending, false)
    } else {
        (pending.push(feed), true)
    }
}

/// The waiting feeds after `feeds` were enqueued one after the other.
pub open spec fn enqueue_all(pending: Seq<Feed>, feeds: Seq<Feed>) -> Seq<Feed>
    decreases feeds.len(),
{
    if feeds.len() == 0 {
        pending
    } else {
        spec_enqueue(enqueue_all(pending, feeds.drop_last()), feeds.last()).0
    }
}

/// Enqueueing never drops a waiting feed: it grows the queue by at most the
/// number of calls and keeps every link that was waiting.
pub proof fn lemma_enqueue_all_keeps(pending: Seq<Feed>, feeds: Seq<Feed>, link: Seq<char>)
    ensures
        enqueue_all(pending, feeds).len() <= pending.len() + feeds.len(),
        has_link(pending, link) ==> has_link(enqueue_all(pending, feeds), link),
    decreases feeds.len(),
{
    if feeds.len() > 0 {
        lemma_enqueue_all_keeps(pending, feeds.drop_last(), link);
        let before = enqueue_all(pending, feeds.drop_last());
        if has_link(before, link) {
            let i = choose|i: int| 0 <= i < before.len() && #[trigger] before[i].link@ == link;
            let after = spec_enqueue(before, feeds.last()).0;
            assert(after[i].link@ == link);
        }
    }
}

/// Single flight: once a link was admitted, every further `enqueue` of that
/// link is refused, however many other calls come between, for as long as
/// the link is not handed out.
pub proof fn lemma_single_flight(pending: Seq<Feed>, first: Feed, between: Seq<Feed>, again: Feed)
    requires
        again.link@ == first.link@,
    ensures
        !spec_enqueue(enqueue_all(spec_enqueue(pending, first).0, between), again).1,
        spec_enqueue(enqueue_all(spec_enqueue(pending, first).0, between), again).0 == enqueue_all(
            spec_enqueue(pending, first).0,
            between,
        ),
{
    let admitted = spec_enqueue(pending, first).0;
    if has_link(pending, first.link@) {
    } else {
        assert(admitted[pending.len() as int].link@ == first.link@);
    }
    assert(has_link(admitted, first.link@));
    lemma_enqueue_all_keeps(admitted, between, first.link@);
}

/// Taking a feed out of a list without repeated links frees its link, and
/// no other.
pub proof fn lemma_remove_frees_link(feeds: Seq<Feed>, i: int)
    requires
        distinct_links(feeds),
        0 <= i < feeds.len(),
    ensures
        distinct_links(feeds.remove(i)),
        !has_link(feeds.remove(i), feeds[i].link@),
        forall|link: Seq<char>|
            link != feeds[i].link@ ==> has_link(feeds.remove(i), link) == has_link(feeds, link),
{
    let rest = feeds.remove(i);
    assert forall|k: int| 0 <= k < rest.len() implies #[trigger] rest[k] == feeds[if k < i {
        k
    } else {
        k + 1
    }] by {}
    assert forall|link: Seq<char>| link != feeds[i].link@ implies has_link(rest, link)
        == has_link(feeds, link) by {
        if has_link(feeds, link) {
            let k = choose|k: int| 0 <= k < feeds.len() && #[trigger] feeds[k].link@ == link;
            let at = if k < i { k } else { k - 1 };
            assert(rest[at].link@ == link);
        }
        if has_link(rest, link) {
            let k = choose|k: int| 0 <= k < rest.len() && #[trigger] rest[k].link@ == link;
            let at = if k < i { k } else { k + 1 };
            assert(feeds[at].link@ == link);
        }
    }
    if has_link(rest, feeds[i].link@) {
        let k = choose|k: int| 0 <= k < rest.len() && #[trigger] rest[k].link@ == feeds[i].link@;
        let at = if k < i { k } else { k + 1 };
        assert(feeds[at].link@ == feeds[i].link@);
    }
    assert forall|a: int, b: int| 0 <= a < b < rest.len() implies #[trigger] rest[a].link@
        != #[trigger] rest[b].link@ by {
        let fa = if a < i { a } else { a + 1 };
        let fb = if b < i { b } else { b + 1 };
        assert(feeds[fa].link@ != feeds[fb].link@);
    }
}

/// A link that was handed out is free again: the next `enqueue` of it is
/// admitted.
pub proof fn lemma_dequeued_link_is_admitted(pending: Seq<Feed>, i: int, again: Feed)
    requires
        distinct_links(pending),
        0 <= i < pending.len(),
        again.link@ == pending[i].link@,
    ensures
        spec_enqueue(pending.remove(i), again) == (pending.remove(i).push(again), true),
{
    lemma_remove_frees_link(pending, i);
}

/// Index of the feed with this link, if one is among `feeds`.
pub fn position_of(feeds: &Vec<Feed>, link: &String) -> (found: Option<usize>)
    ensures
        match found {
            Some(i) => i < feeds@.len() && feeds@[i as int].link@ == link@ && forall|j: int|
                0 <= j < i ==> #[trigger] feeds@[j].link@ != link@,
            None => !has_link(feeds@, link@),
        },
{
    let mut i: usize = 0;
    while i < feeds.len()
        invariant
            i <= feeds@.len(),
            forall|j: int| 0 <= j < i ==> #[trigger] feeds@[j].link@ != link@,
        decreases feeds@.len() - i,
    {
        if feeds[i].link == *link {
            return Some(i);
        }
        i = i + 1;
    }
    None
}

/// Takes the first feed with this link out of `feeds`; the others keep
/// their order. `None`, and nothing changed, where no feed has the link.
pub fn remove_link(feeds: &mut Vec<Feed>, link: &String) -> (removed: Option<Feed>)
    ensures
        match removed {
            Some(feed) => exists|i: int|
                0 <= i < old(feeds)@.len() && #[trigger] old(feeds)@[i] == feed && feed.link@
                    == link@ && final(feeds)@ == old(feeds)@.remove(i) && forall|j: int|
                    0 <= j < i ==> #[trigger] old(feeds)@[j].link@ != link@,
            None => !has_link(old(feeds)@, link@) && final(feeds)@ == old(feeds)@,
        },
{
    match position_of(feeds, link) {
        Some(i) => {
            let feed = feeds.remove(i);
            Some(feed)
        },
        None => None,
    }
}

/// What polling the queue gave.
#[derive(Debug)]
pub enum Polled {
    /// Feeds are waiting and none is due yet; the caller's waker is
    /// registered.
    Pending,
    /// No feed is waiting.
    Empty,
    /// This feed is due; it has left the queue and may be enqueued again.
    Due(Feed),
}

/// The pending fetches: at most one per feed link, each with the time at
/// which it falls due.
pub struct FetchQueue {
    feeds: Vec<Feed>,
    timers: DelayQueue<String>,
    /// Signalled whenever a feed is admitted, for a task that waits on an
    /// empty queue.
    pub wakeup: Notify,
}

impl View for FetchQueue {
    type V = Seq<Feed>;

    /// The waiting feeds, in the order in which they were admitted.
    closed spec fn view(&self) -> Seq<Feed> {
        self.feeds@
    }
}

impl FetchQueue {
    /// No link waits twice, and the timers hold exactly the waiting links.
    pub closed spec fn wf(self) -> bool {
        &&& distinct_links(self.feeds@)
        &&& timer_items(self.timers) == links(self.feeds@).to_multiset()
    }

    /// Of a well-formed queue no link waits twice.
    pub proof fn lemma_no_link_twice(self)
        requires
            self.wf(),
        ensures
            distinct_links(self@),
    {
    }

    /// A feed with this link waits in the queue.
    pub open spec fn is_pending(self, link: Seq<char>) -> bool {
        has_link(self@, link)
    }

    /// An empty queue.
    pub fn new() -> (queue: FetchQueue)
        ensures
            queue.wf(),
            queue@ == Seq::<Feed>::empty(),
    {
        let queue = FetchQueue { feeds: Vec::new(), timers: timers_new(), wakeup: wakeup_new() };
        proof {
            assert(links(queue.feeds@) =~= Seq::<Seq<char>>::empty());
            links(queue.feeds@).to_multiset_ensures();
            assert(links(queue.feeds@).to_multiset() =~= Multiset::<Seq<char>>::empty());
        }
        queue
    }

    /// Number of waiting feeds.
    pub fn len(&self) -> (n: usize)
        ensures
            n == self@.len(),
    {
        self.feeds.len()
    }

    /// Whether a feed with this link waits in the queue.
    pub fn contains(&self, link: &String) -> (pending: bool)
        ensures
            pending == self.is_pending(link@),
    {
        position_of(&self.feeds, link).is_some()
    }

    /// Admits `feed`, due `delay_secs` seconds from now, unless a feed with
    /// the same link is waiting already; says whether it was admitted.
    /// Must run inside a Tokio runtime with timers enabled.
    pub fn enqueue(&mut self, feed: Feed, delay_secs: u64) -> (admitted: bool)
        requires
            old(self).wf(),
            old(self)@.len() < MAX_ENTRIES,
            delay_secs <= MAX_DELAY_SECS,
        ensures
            final(self).wf(),
            (final(self)@, admitted) == spec_enqueue(old(self)@, feed),
            admitted == !old(self).is_pending(feed.link@),
    {
        let exists = position_of(&self.feeds, &feed.link).is_some();
        if !exists {
            proof {
                let before = links(self.feeds@);
                before.to_multiset_ensures();
                assert(links(self.feeds@.push(feed)) =~= before.push(feed.link@));
            }
            timers_insert(&mut self.timers, feed.link.clone(), delay_secs);
            self.feeds.push(feed);
            wake_waiters(&self.wakeup);
        }
        !exists
    }

    /// Hands out a feed whose delay has elapsed, if there is one, and frees
    /// its link for the next `enqueue`. A queue in which nothing waits
    /// answers `Empty`, and no other does: the caller then waits for an
    /// insertion. Where feeds wait, the timers decide whether one is due and
    /// which; whatever they say, a feed that is handed out was waiting, and
    /// every other feed keeps its place.
    pub fn poll_next(&mut self, cx: &mut Context<'_>) -> (polled: Polled)
        requires
            old(self).wf(),
        ensures
            final(self).wf(),
            polled is Empty <==> old(self)@.len() == 0,
            match polled {
                Polled::Pending => final(self)@ == old(self)@,
                Polled::Empty => final(self)@ == old(self)@,
                Polled::Due(feed) => {
                    &&& exists|i: int|
                        0 <= i < old(self)@.len() && #[trigger] old(self)@[i] == feed
                            && final(self)@ == old(self)@.remove(i)
                    &&& old(self).is_pending(feed.link@)
                    &&& !final(self).is_pending(feed.link@)
                    &&& forall|link: Seq<char>|
                        link != feed.link@ ==> final(self).is_pending(link) == old(
                            self,
                        ).is_pending(link)
                },
            },
    {
        if self.feeds.len() == 0 {
            return Polled::Empty;
        }
        let ghost before = links(self.feeds@);
        proof {
            before.to_multiset_ensures();
        }
        match timers_poll(&mut self.timers, cx) {
            Expiry::Pending => Polled::Pending,
            Expiry::Empty => Polled::Empty,
            Expiry::Due(link) => {
                proof {
                    assert(before.contains(link@));
                    let k = choose|k: int| 0 <= k < before.len() && before[k] == link@;
                    assert(self.feeds@[k].link@ == link@);
                }
                let removed = remove_link(&mut self.feeds, &link);
                let feed = removed.unwrap();
                proof {
                    let i = choose|i: int|
                        0 <= i < old(self)@.len() && #[trigger] old(self)@[i] == feed
                            && feed.link@ == link@ && self.feeds@ == old(self)@.remove(i);
                    assert(links(self.feeds@) =~= before.remove(i));
                    assert(before[i] == link@);
                    lemma_remove_frees_link(old(self)@, i);
                }
                Polled::Due(feed)
            },
        }
    }
}

} // verus!
