//! User-space client library for the Linux rpmsg (remote-processor
//! messaging) subsystem, organised as a verified decision core.
//!
//! The library models the whole control flow of an rpmsg round-trip
//! latency experiment: remoteproc bring-up over sysfs, channel setup
//! (driver binding, control-interface discovery, endpoint creation and
//! discovery), endpoint byte accounting, the notification engine's
//! receive path, and the sample store with its statistics.  Every
//! decision is a verified function from plain values to plain values;
//! the thin runtime that performs the actual syscalls hands their
//! results in as arguments.

use vstd::prelude::*;

pub mod channel;
pub mod codec;
pub mod harness;
pub mod notify;
pub mod setup;
pub mod remote_proc;
pub mod strutil;
pub mod sysfs;

verus! {

/// Length of the rpmsg transport header on the wire.
pub const RPMSG_HEADER_LEN: u32 = 16;

/// Largest rpmsg frame once the transport header is accounted for.
pub const MAX_RPMSG_BUFF_SIZE: u32 = 512 - RPMSG_HEADER_LEN;

/// Largest application payload: the frame budget minus a reserve for
/// the serialization overhead of the length-prefixed codec.
pub const PAYLOAD_MAX_SIZE: usize = (MAX_RPMSG_BUFF_SIZE - 24) as usize;

/// Sentinel endpoint address meaning "any address".
pub const RPMSG_ADDR_ANY: u32 = 0xffffffff;

/// Number of payloads one experiment run sends.
pub const NUM_PAYLOADS: usize = 100000;

/// An application-level message exchanged in the round-trip
/// experiment: a numbered payload of raw bytes.
#[derive(Debug)]
pub struct Payload {
    pub num: usize,
    pub data: Vec<u8>,
}

impl Payload {
    /// A fresh payload for the given iteration id, carrying the
    /// default five-byte body of zeroes.
    pub fn new(id: usize) -> (r: Self)
        ensures
            r.num == id,
            r.data@ == Seq::<u8>::new(5, |i: int| 0u8),
    {
        let data: Vec<u8> = vec![0u8, 0u8, 0u8, 0u8, 0u8];
        assert(data@ =~= Seq::<u8>::new(5, |i: int| 0u8));
        Self { num: id, data }
    }
}

/// A receive or send event: an iteration id tagged with a monotonic
/// instant, measured in nanoseconds from an arbitrary origin.
#[derive(Debug, Clone, Copy, PartialEq, Eq)]
pub struct TimeStamp {
    pub id: usize,
    pub time_stamp: u64,
}

} // verus!
