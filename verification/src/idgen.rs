use vstd::prelude::*;

use crate::errors::EngageError;

verus! {

/// Number of distinct sequence values per millisecond tick (12 bits).
pub const SEQ_LIMIT: u64 = 4096;
/// Number of distinct machine identifiers (5 bits).
pub const MACHINE_LIMIT: u64 = 32;
/// Number of distinct node identifiers per machine (5 bits).
pub const NODE_LIMIT: u64 = 32;
/// Exclusive bound on the millisecond timestamp component (41 bits).
pub const TS_LIMIT: u64 = 0x200_0000_0000;

/// Weight of the timestamp component in a packed id.
pub const TS_WEIGHT: u64 = 0x40_0000;
/// Weight of the machine component in a packed id.
pub const MACHINE_WEIGHT: u64 = 0x2_0000;
/// Weight of the node component in a packed id.
pub const NODE_WEIGHT: u64 = 0x1000;

/// A packed 64-bit id: timestamp, machine, node and sequence in decreasing
/// significance, so ids order first by allocation time.
pub open spec fn pack_spec(ts: int, machine: int, node: int, seq: int) -> int {
    ts * (TS_WEIGHT as int) + machine * (MACHINE_WEIGHT as int) + node * (NODE_WEIGHT as int)
        + seq
}

/// Allocates globally distinct, time-ordered 64-bit ids without a central
/// sequence. Each cooperating process must be given a distinct
/// `(machine_id, node_id)` pair; within a process, the caller serializes
/// access (a mutex around the one read-modify-write, never around I/O).
pub struct IdGenerator {
    /// Fixed identifier of this machine, below [`MACHINE_LIMIT`].
    pub machine_id: u64,
    /// Fixed identifier of this worker on its machine, below [`NODE_LIMIT`].
    pub node_id: u64,
    /// Millisecond timestamp encoded into the most recent id.
    pub last_millis: u64,
    /// Sub-millisecond sequence encoded into the most recent id.
    pub sequence: u64,
}

impl IdGenerator {
    pub open spec fn wf(self) -> bool {
        &&& self.machine_id < MACHINE_LIMIT
        &&& self.node_id < NODE_LIMIT
        &&& self.last_millis < TS_LIMIT
        &&& self.sequence < SEQ_LIMIT
    }

    /// The id most recently handed out; for a fresh generator, a sentinel
    /// below every id it will ever hand out.
    pub open spec fn current_id(self) -> int {
        pack_spec(
            self.last_millis as int,
            self.machine_id as int,
            self.node_id as int,
            self.sequence as int,
        )
    }

    /// The id space is spent: the timestamp component is at its maximum, the
    /// sequence within it is exhausted, and the clock offers nothing later.
    pub open spec fn exhausted(self, now_millis: u64) -> bool {
        &&& self.last_millis == TS_LIMIT - 1
        &&& self.sequence == SEQ_LIMIT - 1
        &&& now_millis <= self.last_millis
    }

    pub fn new(machine_id: u64, node_id: u64) -> (g: Self)
        requires
            machine_id < MACHINE_LIMIT,
            node_id < NODE_LIMIT,
        ensures
            g.wf(),
            g.machine_id == machine_id,
            g.node_id == node_id,
            g.last_millis == 0,
            g.sequence == 0,
    {
        IdGenerator { machine_id, node_id, last_millis: 0, sequence: 0 }
    }

    /// Hands out the next id, strictly above every id this generator has
    /// handed out before. The caller supplies the current clock reading; a
    /// reading older than the last one is treated as the last one, and an
    /// exhausted millisecond spills into the next, so the result never
    /// repeats even under a clock that stalls or steps back.
    pub fn next_id(&mut self, now_millis: u64) -> (r: Result<i64, EngageError>)
        requires
            old(self).wf(),
            now_millis < TS_LIMIT,
        ensures
            final(self).wf(),
            final(self).machine_id == old(self).machine_id,
            final(self).node_id == old(self).node_id,
            r is Err <==> old(self).exhausted(now_millis),
            r is Err ==> *final(self) == *old(self) && r == Err::<i64, EngageError>(
                EngageError::Internal,
            ),
            r matches Ok(id) ==> {
                &&& 0 <= id
                &&& id as int == final(self).current_id()
                &&& final(self).current_id() > old(self).current_id()
                &&& old(self).last_millis <= final(self).last_millis
                &&& (now_millis > old(self).last_millis ==> final(self).last_millis == now_millis
                    && final(self).sequence == 0)
            },
    {
        let ts: u64 = if now_millis > self.last_millis {
            now_millis
        } else {
            self.last_millis
        };
        if ts == self.last_millis {
            if self.sequence == SEQ_LIMIT - 1 {
                if ts >= TS_LIMIT - 1 {
                    return Err(EngageError::Internal);
                }
                self.last_millis = ts + 1;
                self.sequence = 0;
            } else {
                self.sequence = self.sequence + 1;
            }
        } else {
            self.last_millis = ts;
            self.sequence = 0;
        }
        let id: u64 = self.last_millis * TS_WEIGHT + self.machine_id * MACHINE_WEIGHT
            + self.node_id * NODE_WEIGHT + self.sequence;
        proof {
            assert(id < 0x8000_0000_0000_0000);
        }
        Ok(id as i64)
    }
}

/// Two generators with different machine or node identifiers can never pack
/// the same id, whatever their timestamps and sequences: the packing is
/// injective over its whole domain.
pub proof fn lemma_pack_injective(
    ts1: int,
    m1: int,
    n1: int,
    s1: int,
    ts2: int,
    m2: int,
    n2: int,
    s2: int,
)
    requires
        0 <= ts1 < TS_LIMIT,
        0 <= m1 < MACHINE_LIMIT,
        0 <= n1 < NODE_LIMIT,
        0 <= s1 < SEQ_LIMIT,
        0 <= ts2 < TS_LIMIT,
        0 <= m2 < MACHINE_LIMIT,
        0 <= n2 < NODE_LIMIT,
        0 <= s2 < SEQ_LIMIT,
        !(ts1 == ts2 && m1 == m2 && n1 == n2 && s1 == s2),
    ensures
        pack_spec(ts1, m1, n1, s1) != pack_spec(ts2, m2, n2, s2),
{
    if ts1 != ts2 {
        if ts1 < ts2 {
            assert(pack_spec(ts1, m1, n1, s1) < pack_spec(ts2, m2, n2, s2));
        } else {
            assert(pack_spec(ts2, m2, n2, s2) < pack_spec(ts1, m1, n1, s1));
        }
    } else if m1 != m2 {
        if m1 < m2 {
            assert(pack_spec(ts1, m1, n1, s1) < pack_spec(ts2, m2, n2, s2));
        } else {
            assert(pack_spec(ts2, m2, n2, s2) < pack_spec(ts1, m1, n1, s1));
        }
    } else if n1 != n2 {
        if n1 < n2 {
            assert(pack_spec(ts1, m1, n1, s1) < pack_spec(ts2, m2, n2, s2));
        } else {
            assert(pack_spec(ts2, m2, n2, s2) < pack_spec(ts1, m1, n1, s1));
        }
    }
}

/// A strictly increasing run of ids never repeats: any number of successful
/// allocations from one generator, taken in order, are pairwise distinct.
pub proof fn lemma_increasing_ids_distinct(ids: Seq<int>)
    requires
        forall|i: int, j: int| 0 <= i < j < ids.len() ==> ids[i] < ids[j],
    ensures
        forall|i: int, j: int|
            0 <= i < ids.len() && 0 <= j < ids.len() && i != j ==> ids[i] != ids[j],
{
    assert forall|i: int, j: int|
        0 <= i < ids.len() && 0 <= j < ids.len() && i != j implies ids[i] != ids[j] by {
        if i < j {
            assert(ids[i] < ids[j]);
        } else {
            assert(ids[j] < ids[i]);
        }
    }
}

} // verus!
