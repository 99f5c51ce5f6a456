//! The notification engine's verified decisions.  Two interchangeable
//! backends deliver "data available" events: a signal-driven one
//! (`SIGIO` raised on an `O_ASYNC` descriptor, drained on a dedicated
//! thread) and an epoll-driven one.  Both wake, timestamp *before*
//! reading so decode time never inflates the measured latency, then
//! drain the endpoint until it would block.
//!
//! The runtime performs the waits and the reads; the functions here
//! decide what each wake produces: which events, under which
//! timestamp, and when to re-arm.

use vstd::prelude::*;
use crate::channel::ChannelError;
use crate::codec::{decode_payload, spec_decode_payload};
use crate::TimeStamp;

verus! {

/// The `O_ASYNC` file-status flag on the targeted Linux platforms:
/// the kernel raises `SIGIO` when the descriptor becomes ready.
pub const O_ASYNC_FLAG: i32 = 0x2000;

/// The flag word to hand back to the kernel when arming the signal
/// backend: the flags that `F_GETFL` returned, with `O_ASYNC` added
/// and nothing else touched.
pub fn add_async_flag(flags: i32) -> (r: i32)
    ensures
        r == flags | O_ASYNC_FLAG,
{
    flags | O_ASYNC_FLAG
}

/// The event one decodable frame contributes: its id under the wake
/// timestamp.  A frame that does not decode (or whose id cannot be
/// indexed on this platform) contributes nothing; it is logged and
/// skipped, never stalling the drain.
pub open spec fn spec_event_for(frame: Vec<u8>, wake_ts: u64) -> Seq<TimeStamp> {
    match spec_decode_payload(frame@) {
        Some(p) => if p.0 <= usize::MAX {
            seq![TimeStamp { id: p.0 as usize, time_stamp: wake_ts }]
        } else {
            Seq::empty()
        },
        None => Seq::empty(),
    }
}

/// The events one wake produces from the frames it drained, in the
/// order the kernel made them available.
pub open spec fn spec_drain(frames: Seq<Vec<u8>>, wake_ts: u64) -> Seq<TimeStamp>
    decreases frames.len(),
{
    if frames.len() == 0 {
        Seq::empty()
    } else {
        spec_drain(frames.drop_last(), wake_ts) + spec_event_for(frames.last(), wake_ts)
    }
}

/// Turn the frames drained on one wake into delivered events.  All of
/// them carry the timestamp taken before the first read, so kernel
/// notification coalescing never reorders what the consumer sees.
pub fn drain_events(wake_ts: u64, frames: &Vec<Vec<u8>>) -> (r: Vec<TimeStamp>)
    ensures
        r@ == spec_drain(frames@, wake_ts),
{
    let mut r: Vec<TimeStamp> = Vec::new();
    let mut i: usize = 0;
    while i < frames.len()
        invariant
            i <= frames@.len(),
            r@ == spec_drain(frames@.subrange(0, i as int), wake_ts),
        decreases frames@.len() - i,
    {
        let frame: &Vec<u8> = &frames[i];
        match decode_payload(frame) {
            Ok(payload) => {
                r.push(TimeStamp { id: payload.num, time_stamp: wake_ts });
            },
            Err(_) => {},
        }
        proof {
            assert(frames@.subrange(0, i + 1 as int).drop_last() =~= frames@.subrange(0, i as int));
            assert(frames@.subrange(0, i + 1 as int).last() == frames@[i as int]);
        }
        i = i + 1;
    }
    proof {
        assert(frames@.subrange(0, frames@.len() as int) =~= frames@);
    }
    r
}

/// Every event of one wake carries that wake's timestamp, so the
/// timestamps a drain delivers are monotonically non-decreasing.
pub proof fn lemma_drain_timestamps(frames: Seq<Vec<u8>>, wake_ts: u64)
    ensures
        forall|k: int|
            0 <= k < spec_drain(frames, wake_ts).len() ==> #[trigger] spec_drain(
                frames,
                wake_ts,
            )[k].time_stamp == wake_ts,
    decreases frames.len(),
{
    if frames.len() > 0 {
        lemma_drain_timestamps(frames.drop_last(), wake_ts);
        let pre = spec_drain(frames.drop_last(), wake_ts);
        let tail = spec_event_for(frames.last(), wake_ts);
        assert forall|k: int|
            0 <= k < spec_drain(frames, wake_ts).len() implies #[trigger] spec_drain(
            frames,
            wake_ts,
        )[k].time_stamp == wake_ts by {
            if k < pre.len() {
                assert(spec_drain(frames, wake_ts)[k] == pre[k]);
            } else {
                assert(spec_drain(frames, wake_ts)[k] == tail[k - pre.len()]);
            }
        }
    }
}

/// What the receive loop does next after one read on the woken
/// endpoint.
#[derive(Debug, Clone, PartialEq, Eq)]
pub enum DrainDecision {
    /// A frame decoded: deliver this event and keep draining.
    Deliver { event: TimeStamp },
    /// A frame arrived but does not decode: log it, keep draining.
    Skip,
    /// No data is left: stop draining and wait for the next wake.
    Rearm,
    /// The endpoint itself failed: surface the error.
    Fail { error: ChannelError },
}

/// The decision the receive loop owes one read outcome: would-block
/// re-arms, any other error surfaces, a decodable frame becomes an
/// event under the wake timestamp, and an undecodable one is skipped.
pub open spec fn spec_drain_decision(
    wake_ts: u64,
    read_result: Result<Vec<u8>, ChannelError>,
) -> DrainDecision {
    match read_result {
        Err(e) => if e == ChannelError::WouldBlock {
            DrainDecision::Rearm
        } else {
            DrainDecision::Fail { error: e }
        },
        Ok(frame) => match spec_decode_payload(frame@) {
            Some(p) => if p.0 <= usize::MAX {
                DrainDecision::Deliver {
                    event: TimeStamp { id: p.0 as usize, time_stamp: wake_ts },
                }
            } else {
                DrainDecision::Skip
            },
            None => DrainDecision::Skip,
        },
    }
}

/// Decide what one read outcome means for the receive loop.
pub fn on_read_outcome(wake_ts: u64, read_result: Result<Vec<u8>, ChannelError>) -> (r:
    DrainDecision)
    ensures
        r == spec_drain_decision(wake_ts, read_result),
{
    match read_result {
        Err(ChannelError::WouldBlock) => DrainDecision::Rearm,
        Err(e) => DrainDecision::Fail { error: e },
        Ok(frame) => {
            match decode_payload(&frame) {
                Ok(payload) => DrainDecision::Deliver {
                    event: TimeStamp { id: payload.num, time_stamp: wake_ts },
                },
                Err(_) => DrainDecision::Skip,
            }
        },
    }
}

} // verus!
