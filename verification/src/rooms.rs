//! Progress of connecting the configured rooms one after another.

use vstd::prelude::*;

verus! {

/// How long to pause after each room's connect attempt, in milliseconds.
pub const ROOM_INIT_PAUSE_MS: u64 = 500;

/// How far connecting the configured rooms has got.
#[derive(Clone, Copy, Debug, PartialEq, Eq, Structural)]
pub struct RoomInitProgress {
    /// The number of configured rooms.
    pub total: usize,
    /// Rooms tried so far.
    pub attempted: usize,
    /// Rooms connected so far.
    pub connected: usize,
}

/// The number of successes in `outcomes`.
pub open spec fn count_connected(outcomes: Seq<bool>) -> nat
    decreases outcomes.len(),
{
    if outcomes.len() == 0 {
        0
    } else {
        count_connected(outcomes.drop_last()) + if outcomes.last() {
            1nat
        } else {
            0nat
        }
    }
}

impl RoomInitProgress {
    /// No more rooms are tried or connected than are configured.
    pub open spec fn wf(&self) -> bool {
        self.connected <= self.attempted <= self.total
    }

    /// Nothing tried yet out of `total` rooms.
    pub fn new(total: usize) -> (p: RoomInitProgress)
        ensures
            p == (RoomInitProgress { total, attempted: 0, connected: 0 }),
            p.wf(),
    {
        RoomInitProgress { total, attempted: 0, connected: 0 }
    }

    /// Records the outcome of the next room's connect attempt and returns
    /// how many rooms are connected, as the progress log shows it.
    pub fn record(&mut self, connected: bool) -> (shown: usize)
        requires
            old(self).wf(),
            old(self).attempted < old(self).total,
        ensures
            final(self).wf(),
            final(self).total == old(self).total,
            final(self).attempted == old(self).attempted + 1,
            final(self).connected == old(self).connected + if connected {
                1int
            } else {
                0int
            },
            shown == final(self).connected,
            *final(self) == after_outcomes(*old(self), seq![connected]),
    {
        let ghost before = *self;
        proof {
            let one = seq![connected];
            assert(one.drop_last() =~= Seq::<bool>::empty());
            assert(one.last() == connected);
            assert(after_outcomes(before, one.drop_last()) == before);
        }
        self.attempted = self.attempted + 1;
        if connected {
            self.connected = self.connected + 1;
        }
        self.connected
    }

    /// Every configured room has been tried.
    pub fn finished(&self) -> (r: bool)
        ensures
            r == (self.attempted == self.total),
    {
        self.attempted == self.total
    }
}

/// The progress after recording `outcomes`, one per room, from `p`.
pub open spec fn after_outcomes(p: RoomInitProgress, outcomes: Seq<bool>) -> RoomInitProgress
    decreases outcomes.len(),
{
    if outcomes.len() == 0 {
        p
    } else {
        let q = after_outcomes(p, outcomes.drop_last());
        RoomInitProgress {
            total: q.total,
            attempted: (q.attempted + 1) as usize,
            connected: (q.connected + if outcomes.last() {
                1int
            } else {
                0int
            }) as usize,
        }
    }
}

/// Once every room has been tried from a fresh start, the connected count is
/// the number of rooms whose connect succeeded.
pub proof fn lemma_connected_counts_successes(total: usize, outcomes: Seq<bool>)
    requires
        outcomes.len() <= total,
    ensures
        after_outcomes(RoomInitProgress { total, attempted: 0, connected: 0 }, outcomes).connected
            == count_connected(outcomes),
        after_outcomes(RoomInitProgress { total, attempted: 0, connected: 0 }, outcomes).attempted
            == outcomes.len(),
        after_outcomes(RoomInitProgress { total, attempted: 0, connected: 0 }, outcomes).total
            == total,
        after_outcomes(RoomInitProgress { total, attempted: 0, connected: 0 }, outcomes).wf(),
    decreases outcomes.len(),
{
    if outcomes.len() > 0 {
        lemma_connected_counts_successes(total, outcomes.drop_last());
        lemma_count_connected_bound(outcomes.drop_last());
    }
}

proof fn lemma_count_connected_bound(outcomes: Seq<bool>)
    ensures
        count_connected(outcomes) <= outcomes.len(),
    decreases outcomes.len(),
{
    if outcomes.len() > 0 {
        lemma_count_connected_bound(outcomes.drop_last());
    }
}

} // verus!
