//! The measurement harness: the sample store with its two id-to-
//! timestamp maps, the per-iteration sender steps, and the statistics
//! computed once all workers have quiesced.
//!
//! The store's invariants are the harness's: ids are consecutive from
//! one, send timestamps never decrease in id order, and a received
//! timestamp earlier than its send is a clock anomaly whose sample is
//! dropped from the statistics, never counted.

use vstd::prelude::*;
use vstd::string::StringExecFns;
use std::collections::HashMap;
use crate::codec::{encode_payload, spec_encode_payload};
use crate::strutil::{spec_decimal, u64_to_decimal, usize_to_decimal};
use crate::{Payload, TimeStamp};

verus! {

broadcast use vstd::std_specs::hash::group_hash_axioms;

/// The two synchronized id-to-timestamp maps of the experiment:
/// `sent[id]` is taken just before the frame is written, `recv[id]`
/// just after the notification engine wakes for the echo.
pub struct SampleStore {
    pub sent: HashMap<usize, u64>,
    pub recv: HashMap<usize, u64>,
}

impl SampleStore {
    /// An empty store.
    pub fn new() -> (r: Self)
        ensures
            r.sent@ == Map::<usize, u64>::empty(),
            r.recv@ == Map::<usize, u64>::empty(),
    {
        SampleStore { sent: HashMap::new(), recv: HashMap::new() }
    }

    /// Record the send instant of one id.  Overwrites are a bug in
    /// the harness, so the id must be fresh.
    pub fn insert_sent(&mut self, id: usize, t: u64)
        requires
            !old(self).sent@.contains_key(id),
        ensures
            final(self).sent@ == old(self).sent@.insert(id, t),
            final(self).recv@ == old(self).recv@,
    {
        self.sent.insert(id, t);
    }

    /// Record the receive instant of one id.  Overwrites are a bug in
    /// the engine's consumer, so the id must be fresh.
    pub fn insert_recv(&mut self, id: usize, t: u64)
        requires
            !old(self).recv@.contains_key(id),
        ensures
            final(self).recv@ == old(self).recv@.insert(id, t),
            final(self).sent@ == old(self).sent@,
    {
        self.recv.insert(id, t);
    }

    /// Look up the send instant of an id.
    pub fn get_sent(&self, id: usize) -> (r: Option<u64>)
        ensures
            r matches Some(t) ==> self.sent@.contains_key(id) && self.sent@[id] == t,
            r is None ==> !self.sent@.contains_key(id),
    {
        match self.sent.get(&id) {
            Some(t) => Some(*t),
            None => None,
        }
    }

    /// Look up the receive instant of an id.
    pub fn get_recv(&self, id: usize) -> (r: Option<u64>)
        ensures
            r matches Some(t) ==> self.recv@.contains_key(id) && self.recv@[id] == t,
            r is None ==> !self.recv@.contains_key(id),
    {
        match self.recv.get(&id) {
            Some(t) => Some(*t),
            None => None,
        }
    }

    /// How many receive instants the store holds.
    pub fn recv_len(&self) -> (r: usize)
        ensures
            r == self.recv@.len(),
    {
        self.recv.len()
    }

    /// How many send instants the store holds.
    pub fn sent_len(&self) -> (r: usize)
        ensures
            r == self.sent@.len(),
    {
        self.sent.len()
    }
}

/// One id's one-way delay, as the statistics count it: defined only
/// when both instants were recorded and the receive does not precede
/// the send; a negative difference is a dropped sample.
pub open spec fn spec_sample_diff(sent: Map<usize, u64>, recv: Map<usize, u64>, id: usize) -> Option<
    u64,
> {
    if sent.contains_key(id) && recv.contains_key(id) && recv[id] >= sent[id] {
        Some((recv[id] - sent[id]) as u64)
    } else {
        None
    }
}

/// Running statistics over the counted samples.  `min` and `max` are
/// meaningful only while `count` is positive.
#[derive(Debug, Clone, Copy, PartialEq, Eq)]
pub struct LatencyStats {
    pub count: u64,
    pub sum: u128,
    pub min: u64,
    pub max: u64,
}

/// The statistics over the ids `1..=n`: each id's sample, where it is
/// counted at all, feeds the count, the sum and the extremes.
pub open spec fn spec_stats(sent: Map<usize, u64>, recv: Map<usize, u64>, n: usize) -> LatencyStats
    decreases n,
{
    if n == 0 {
        LatencyStats { count: 0, sum: 0, min: 0, max: 0 }
    } else {
        let prev = spec_stats(sent, recv, (n - 1) as usize);
        match spec_sample_diff(sent, recv, n) {
            Some(d) => LatencyStats {
                count: (prev.count + 1) as u64,
                sum: (prev.sum + d) as u128,
                min: if prev.count == 0 || d < prev.min {
                    d
                } else {
                    prev.min
                },
                max: if prev.count == 0 || d > prev.max {
                    d
                } else {
                    prev.max
                },
            },
            None => prev,
        }
    }
}

/// The statistics stay within machine bounds: at most one counted
/// sample per id, and a sum of at most that many 64-bit differences.
pub proof fn lemma_stats_bounds(sent: Map<usize, u64>, recv: Map<usize, u64>, n: usize)
    ensures
        spec_stats(sent, recv, n).count <= n,
        spec_stats(sent, recv, n).sum <= (spec_stats(sent, recv, n).count as int) * (
        u64::MAX as int),
    decreases n,
{
    if n == 0 {
    } else {
        lemma_stats_bounds(sent, recv, (n - 1) as usize);
        let prev = spec_stats(sent, recv, (n - 1) as usize);
        match spec_sample_diff(sent, recv, n) {
            Some(d) => {
                assert((prev.count as int + 1) * (u64::MAX as int) == prev.count as int * (
                u64::MAX as int) + u64::MAX as int) by (nonlinear_arith);
                assert(prev.count as int + 1 <= u64::MAX as int);
                assert((prev.count as int + 1) * (u64::MAX as int) <= u128::MAX as int)
                    by (nonlinear_arith)
                    requires
                        0 <= prev.count as int + 1 <= u64::MAX as int,
                ;
            },
            None => {},
        }
    }
}

/// Fold the statistics over the ids `1..=n` of a quiesced store.
pub fn compute_stats(store: &SampleStore, n: usize) -> (r: LatencyStats)
    ensures
        r == spec_stats(store.sent@, store.recv@, n),
{
    let mut stats = LatencyStats { count: 0, sum: 0, min: 0, max: 0 };
    let mut i: usize = 0;
    while i < n
        invariant
            i <= n,
            stats == spec_stats(store.sent@, store.recv@, i),
        decreases n - i,
    {
        let id = i + 1;
        proof {
            lemma_stats_bounds(store.sent@, store.recv@, i);
            if spec_sample_diff(store.sent@, store.recv@, id) is Some {
                let d = spec_sample_diff(store.sent@, store.recv@, id)->Some_0;
                assert((stats.count as int + 1) * (u64::MAX as int) == stats.count as int * (
                u64::MAX as int) + u64::MAX as int) by (nonlinear_arith);
                assert((stats.count as int + 1) * (u64::MAX as int) <= u128::MAX as int)
                    by (nonlinear_arith)
                    requires
                        0 <= stats.count as int + 1 <= u64::MAX as int,
                ;
            }
        }
        match (store.get_sent(id), store.get_recv(id)) {
            (Some(ts), Some(tr)) => {
                if tr >= ts {
                    let d = tr - ts;
                    let was_empty = stats.count == 0;
                    stats.count = stats.count + 1;
                    stats.sum = stats.sum + (d as u128);
                    if was_empty || d < stats.min {
                        stats.min = d;
                    }
                    if was_empty || d > stats.max {
                        stats.max = d;
                    }
                }
            },
            _ => {},
        }
        proof {
            assert(stats == spec_stats(store.sent@, store.recv@, id));
        }
        i = id;
    }
    stats
}

/// A sample whose receive instant precedes its send never reaches the
/// statistics: dropping it from the receive map changes nothing, for
/// any scan length.
pub proof fn lemma_negative_latency_excluded(
    sent: Map<usize, u64>,
    recv: Map<usize, u64>,
    n: usize,
    id: usize,
)
    requires
        sent.contains_key(id),
        recv.contains_key(id),
        recv[id] < sent[id],
    ensures
        spec_stats(sent, recv, n) == spec_stats(sent, recv.remove(id), n),
    decreases n,
{
    if n > 0 {
        lemma_negative_latency_excluded(sent, recv, (n - 1) as usize, id);
        assert(spec_sample_diff(sent, recv, n) == spec_sample_diff(sent, recv.remove(id), n));
    }
}

/// The mean one-way delay of the counted samples.
pub fn stats_mean(stats: &LatencyStats) -> (r: u128)
    requires
        stats.count > 0,
    ensures
        r == stats.sum / (stats.count as u128),
{
    stats.sum / (stats.count as u128)
}

/// One line of the report: the id, a tab, the delay in microseconds,
/// a newline.
pub fn tsv_line(id: usize, diff_us: u64) -> (r: String)
    ensures
        r@ == spec_decimal(id as nat) + "\t"@ + spec_decimal(diff_us as nat) + "\n"@,
{
    let mut r = usize_to_decimal(id);
    r.append("\t");
    let diff_digits = u64_to_decimal(diff_us);
    r.append(diff_digits.as_str());
    r.append("\n");
    r
}

/// The name of the report file for a run of `n` payloads.
pub fn tsv_file_name(n: usize) -> (r: String)
    ensures
        r@ == "signal_hook-"@ + spec_decimal(n as nat) + ".tsv"@,
{
    let mut r = String::from_str("signal_hook-");
    let digits = usize_to_decimal(n);
    r.append(digits.as_str());
    r.append(".tsv");
    r
}

/// The sender side of the experiment: which id goes next, and the
/// store the two workers fill.
pub struct Harness {
    pub store: SampleStore,
    pub next_id: usize,
    pub n: usize,
    pub last_sent: u64,
}

impl Harness {
    /// The harness's invariants over the store: the sent ids are
    /// exactly the consecutive ids from one up to the last sent, their
    /// instants never decrease in id order, and none is later than the
    /// most recent send.
    pub open spec fn wf(&self) -> bool {
        &&& self.n < usize::MAX
        &&& 1 <= self.next_id
        &&& self.next_id <= self.n + 1
        &&& forall|id: usize|
            self.store.sent@.contains_key(id) <==> 1 <= id < self.next_id
        &&& forall|a: usize, b: usize|
            self.store.sent@.contains_key(a) && self.store.sent@.contains_key(b) && a <= b
                ==> self.store.sent@[a] <= self.store.sent@[b]
        &&& forall|id: usize|
            self.store.sent@.contains_key(id) ==> self.store.sent@[id] <= self.last_sent
    }

    /// A fresh harness for a run of `n` payloads.
    pub fn new(n: usize) -> (r: Self)
        requires
            n < usize::MAX,
        ensures
            r.wf(),
            r.n == n,
            r.next_id == 1,
            r.store.sent@ == Map::<usize, u64>::empty(),
            r.store.recv@ == Map::<usize, u64>::empty(),
    {
        Harness { store: SampleStore::new(), next_id: 1, n, last_sent: 0 }
    }

    /// One sender iteration: build the next payload, record its send
    /// instant (before the write, so the recorded point is the
    /// earliest at which the send was intended), and hand the encoded
    /// frame out to be written.  The clock is monotonic, so the
    /// instant cannot precede the previous send.
    pub fn next_send(&mut self, now: u64) -> (r: Vec<u8>)
        requires
            old(self).wf(),
            old(self).next_id <= old(self).n,
            now >= old(self).last_sent,
        ensures
            final(self).wf(),
            r@ == spec_encode_payload(old(self).next_id as u64, Seq::<u8>::new(5, |i: int| 0u8)),
            final(self).next_id == old(self).next_id + 1,
            final(self).n == old(self).n,
            final(self).last_sent == now,
            final(self).store.sent@ == old(self).store.sent@.insert(old(self).next_id, now),
            final(self).store.recv@ == old(self).store.recv@,
    {
        let id = self.next_id;
        let payload = Payload::new(id);
        let frame = match encode_payload(&payload) {
            Ok(frame) => frame,
            Err(_) => {
                proof {
                    assert(false);
                }
                Vec::new()
            },
        };
        self.store.insert_sent(id, now);
        self.next_id = id + 1;
        self.last_sent = now;
        frame
    }

    /// Record one event delivered by the notification engine.  Echoes
    /// may arrive out of order; each is filed under its own id, which
    /// must not have been received before.
    pub fn on_event(&mut self, event: TimeStamp)
        requires
            !old(self).store.recv@.contains_key(event.id),
        ensures
            final(self).store.recv@ == old(self).store.recv@.insert(event.id, event.time_stamp),
            final(self).store.sent@ == old(self).store.sent@,
            final(self).next_id == old(self).next_id,
            final(self).n == old(self).n,
            final(self).last_sent == old(self).last_sent,
            old(self).wf() ==> final(self).wf(),
    {
        self.store.insert_recv(event.id, event.time_stamp);
    }
}

} // verus!
