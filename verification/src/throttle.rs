use vstd::prelude::*;

verus! {

/// Spreads the starts of admitted tasks over a window of seconds. It counts
/// the slots that are held and gives each newcomer the next one; it puts no
/// limit on how many tasks run.
#[derive(Debug)]
pub struct Throttle {
    /// Length of the window in seconds.
    pub pieces: usize,
    /// Slots held at the moment.
    pub counter: usize,
}

/// A held slot: a start delayed by `n` seconds.
#[derive(Debug)]
#[must_use]
pub struct Opportunity {
    pub n: usize,
}

impl Throttle {
    /// A throttle needs a window of at least one second.
    pub open spec fn wf(self) -> bool {
        self.pieces > 0
    }

    /// The throttle and the ticket after one acquisition.
    pub open spec fn spec_acquire(self) -> (Throttle, Opportunity) {
        (
            Throttle {
                pieces: self.pieces,
                counter: if self.counter == usize::MAX {
                    0usize
                } else {
                    (self.counter + 1) as usize
                },
            },
            Opportunity { n: (self.counter as int % self.pieces as int) as usize },
        )
    }

    /// The throttle after one ticket was given back.
    pub open spec fn spec_release(self) -> Throttle {
        Throttle {
            pieces: self.pieces,
            counter: if self.counter == 0 {
                usize::MAX
            } else {
                (self.counter - 1) as usize
            },
        }
    }

    /// The throttle after `k` acquisitions in a row.
    pub open spec fn acquire_many(self, k: nat) -> Throttle
        decreases k,
    {
        if k == 0 {
            self
        } else {
            self.acquire_many((k - 1) as nat).spec_acquire().0
        }
    }

    /// A throttle with a window of `pieces` seconds and no slot held.
    pub fn new(pieces: usize) -> (throttle: Self)
        requires
            pieces > 0,
        ensures
            throttle == (Throttle { pieces, counter: 0 }),
            throttle.wf(),
    {
        Throttle { pieces, counter: 0 }
    }

    /// Takes the next slot: the number of slots held, modulo the window.
    pub fn acquire(&mut self) -> (ticket: Opportunity)
        requires
            old(self).wf(),
        ensures
            (*final(self), ticket) == old(self).spec_acquire(),
            final(self).wf(),
            ticket.n < old(self).pieces,
    {
        let n: usize = self.counter % self.pieces;
        if self.counter == usize::MAX {
            self.counter = 0;
        } else {
            self.counter = self.counter + 1;
        }
        Opportunity { n }
    }

    /// Gives a slot back, when the task it admitted has ended or was given up.
    pub fn release(&mut self, ticket: Opportunity)
        ensures
            *final(self) == old(self).spec_release(),
            final(self).wf() == old(self).wf(),
    {
        if self.counter == 0 {
            self.counter = usize::MAX;
        } else {
            self.counter = self.counter - 1;
        }
    }
}

impl Opportunity {
    /// Seconds to let pass before the admitted task starts.
    pub fn wait(&self) -> (secs: u64)
        ensures
            secs == self.n,
    {
        self.n as u64
    }
}

/// Acquisitions issued back to back on a fresh throttle, none released, are
/// assigned the waits 0, 1, 2, ... modulo the window: the acquisition that
/// follows `k` others waits `k % pieces` seconds.
pub proof fn lemma_back_to_back_waits(throttle: Throttle, k: nat)
    requires
        throttle.wf(),
        throttle.counter == 0,
        k <= usize::MAX,
    ensures
        throttle.acquire_many(k).counter == k,
        throttle.acquire_many(k).pieces == throttle.pieces,
        throttle.acquire_many(k).spec_acquire().1.n == k % (throttle.pieces as nat),
    decreases k,
{
    if k > 0 {
        lemma_back_to_back_waits(throttle, (k - 1) as nat);
    }
}

/// Releasing a ticket makes its slot available again: the acquisition after
/// the release is assigned the wait that the released ticket had.
pub proof fn lemma_release_frees_slot(throttle: Throttle)
    requires
        throttle.wf(),
    ensures
        throttle.spec_acquire().0.spec_release() == throttle,
        throttle.spec_acquire().0.spec_release().spec_acquire().1 == throttle.spec_acquire().1,
{
}

} // verus!
