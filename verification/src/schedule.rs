use vstd::prelude::*;
use crate::feed::Feed;
use crate::queue::enqueue_all;
use crate::queue::lemma_enqueue_all_keeps;
use crate::queue::FetchQueue;
use crate::queue::MAX_DELAY_SECS;
use crate::queue::MAX_ENTRIES;

verus! {

/// `x` limited to the range from `lo` to `hi`; where `lo > hi` the upper
/// bound wins.
pub open spec fn clamp(x: int, lo: int, hi: int) -> int {
    let raised = if x < lo { lo } else { x };
    if raised > hi { hi } else { raised }
}

/// Seconds between two fetches of a feed that advertises `ttl` minutes:
/// the advertised interval clamped to the configured bounds, less one second
/// so that the feed's cadence does not lock onto the enumeration timer.
pub open spec fn spec_feed_interval(ttl: Option<u32>, min_interval: u32, max_interval: u32) -> int {
    let advertised = match ttl {
        Some(minutes) => minutes as int * 60,
        None => 0,
    };
    clamp(advertised, min_interval as int, max_interval as int) - 1
}

/// Computes the delay after which a feed is fetched again.
pub fn feed_interval(ttl: Option<u32>, min_interval: u32, max_interval: u32) -> (secs: u64)
    requires
        min_interval >= 1,
        max_interval >= 1,
    ensures
        secs as int == spec_feed_interval(ttl, min_interval, max_interval),
        secs < max_interval,
        min_interval <= max_interval ==> min_interval <= secs + 1,
{
    let advertised: u64 = match ttl {
        Some(minutes) => {
            let m: u64 = minutes.into();
            m * 60
        },
        None => 0,
    };
    let lo: u64 = min_interval.into();
    let hi: u64 = max_interval.into();
    let raised: u64 = if advertised < lo { lo } else { advertised };
    let clamped: u64 = if raised > hi { hi } else { raised };
    clamped - 1
}

/// One enumeration pass: every known feed is enqueued with its own
/// interval as delay. A feed whose link is waiting already is passed over,
/// so a pass may be repeated at will.
pub fn schedule_all(queue: &mut FetchQueue, feeds: Vec<Feed>, min_interval: u32, max_interval: u32)
    requires
        old(queue).wf(),
        min_interval >= 1,
        1 <= max_interval <= MAX_DELAY_SECS,
        old(queue)@.len() + feeds@.len() < MAX_ENTRIES,
    ensures
        final(queue).wf(),
        final(queue)@ == enqueue_all(old(queue)@, feeds@),
{
    let ghost all = feeds@;
    let ghost start = queue@;
    for feed in it: feeds
        invariant
            it.seq() == all,
            queue.wf(),
            queue@ == enqueue_all(start, all.take(it.index() as int)),
            start.len() + all.len() < MAX_ENTRIES,
            min_interval >= 1,
            1 <= max_interval <= MAX_DELAY_SECS,
    {
        proof {
            lemma_enqueue_all_keeps(start, all.take(it.index() as int), Seq::empty());
            assert(all.take(it.index() + 1).drop_last() =~= all.take(it.index() as int));
        }
        let delay: u64 = feed_interval(feed.ttl, min_interval, max_interval);
        queue.enqueue(feed, delay);
    }
    proof {
        assert(all.take(all.len() as int) =~= all);
    }
}

} // verus!
