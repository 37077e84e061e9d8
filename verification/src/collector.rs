//! Per-channel event collection: reusable scratch buffers for one capture
//! channel, and the decision taken after each poll — deliver the decoded
//! records, or retry because nothing valid arrived.
//!
//! The poll itself (an asynchronous read on the channel) happens outside the
//! library; it hands back the filled buffers, how many were filled, and how
//! many records the producer dropped. Delivery is never empty: a poll with no
//! valid record asks the caller to poll again, whatever the lost count says.

use vstd::prelude::*;
use crate::packet::{PacketInfo, PacketModel, RECORD_WIDTH, spec_decode};

verus! {

/// How many scratch buffers one collector hands to each poll.
pub const BATCH_BUFFERS: usize = 10;

/// Capacity of one scratch buffer: the historical slot width reserved per
/// record on the wire, wider than `RECORD_WIDTH` for alignment.
pub const BUFFER_CAPACITY: usize = 20;

/// A zeroed scratch slot.
pub open spec fn zero_buffer() -> Seq<u8> {
    Seq::new(BUFFER_CAPACITY as nat, |i: int| 0u8)
}

/// The records decoded from the first `read` buffers, in order, with the
/// undersized (malformed) ones left out.
pub open spec fn spec_decoded_batch(bufs: Seq<Seq<u8>>, read: int) -> Seq<PacketModel>
    decreases read,
{
    if read <= 0 || read > bufs.len() {
        Seq::empty()
    } else if bufs[read - 1].len() >= RECORD_WIDTH {
        spec_decoded_batch(bufs, read - 1).push(spec_decode(bufs[read - 1]))
    } else {
        spec_decoded_batch(bufs, read - 1)
    }
}

/// What one poll leads to: a non-empty decoded batch for the mixer, or
/// another poll because no valid record was read.
pub enum PollDecision {
    Deliver(Vec<PacketInfo>),
    Retry,
}

/// Allocate one collector's scratch buffers: `BATCH_BUFFERS` zeroed slots of
/// `BUFFER_CAPACITY` bytes, reused across every later poll.
pub fn make_scratch_buffers() -> (bufs: Vec<Vec<u8>>)
    ensures
        bufs@.len() == BATCH_BUFFERS,
        forall|i: int| 0 <= i < bufs@.len() ==> #[trigger] bufs@[i]@ == zero_buffer(),
{
    let mut bufs: Vec<Vec<u8>> = Vec::new();
    while bufs.len() < BATCH_BUFFERS
        invariant
            bufs@.len() <= BATCH_BUFFERS,
            forall|i: int| 0 <= i < bufs@.len() ==> #[trigger] bufs@[i]@ == zero_buffer(),
        decreases BATCH_BUFFERS - bufs@.len(),
    {
        let mut slot: Vec<u8> = Vec::new();
        while slot.len() < BUFFER_CAPACITY
            invariant
                slot@.len() <= BUFFER_CAPACITY,
                forall|j: int| 0 <= j < slot@.len() ==> slot@[j] == 0u8,
            decreases BUFFER_CAPACITY - slot@.len(),
        {
            slot.push(0u8);
        }
        proof {
            assert(slot@ =~= zero_buffer());
        }
        bufs.push(slot);
    }
    bufs
}

/// Reset the scratch buffers before the next poll: every slot becomes zeroed
/// again, and the slot count is kept.
pub fn reset_scratch_buffers(bufs: &mut Vec<Vec<u8>>)
    ensures
        final(bufs)@.len() == old(bufs)@.len(),
        forall|i: int| 0 <= i < final(bufs)@.len() ==> #[trigger] final(bufs)@[i]@ == zero_buffer(),
{
    let mut i: usize = 0;
    while i < bufs.len()
        invariant
            i <= bufs@.len(),
            bufs@.len() == old(bufs)@.len(),
            forall|k: int| 0 <= k < i ==> #[trigger] bufs@[k]@ == zero_buffer(),
        decreases bufs@.len() - i,
    {
        let mut slot: Vec<u8> = Vec::new();
        while slot.len() < BUFFER_CAPACITY
            invariant
                slot@.len() <= BUFFER_CAPACITY,
                forall|j: int| 0 <= j < slot@.len() ==> slot@[j] == 0u8,
            decreases BUFFER_CAPACITY - slot@.len(),
        {
            slot.push(0u8);
        }
        proof {
            assert(slot@ =~= zero_buffer());
        }
        bufs.set(i, slot);
        i = i + 1;
    }
}

/// Decide what one poll's outcome leads to. `read` is the producer's filled
/// count (clamped to the buffer count if it overshoots); `lost` is its count
/// of dropped records, a metric that never influences the decision. The
/// decision is `Deliver` exactly when at least one of the first `read`
/// buffers decodes, and a delivered batch is never empty.
pub fn collect_step(bufs: &Vec<Vec<u8>>, read: usize, lost: u64) -> (d: PollDecision)
    ensures
        ({
            let recs = spec_decoded_batch(
                bufs@.map_values(|b: Vec<u8>| b@),
                if read <= bufs@.len() { read as int } else { bufs@.len() as int },
            );
            &&& (recs.len() == 0 ==> d is Retry)
            &&& (recs.len() > 0 ==> (d matches PollDecision::Deliver(batch)
                && batch@.map_values(|p: PacketInfo| p@) == recs))
            &&& (d matches PollDecision::Deliver(batch) ==> batch@.len() > 0)
        }),
{
    let ghost raw = bufs@.map_values(|b: Vec<u8>| b@);
    let n = if read <= bufs.len() { read } else { bufs.len() };
    let mut out: Vec<PacketInfo> = Vec::new();
    let mut i: usize = 0;
    while i < n
        invariant
            i <= n <= bufs@.len(),
            raw == bufs@.map_values(|b: Vec<u8>| b@),
            out@.map_values(|p: PacketInfo| p@) == spec_decoded_batch(raw, i as int),
        decreases n - i,
    {
        match PacketInfo::try_from(bufs[i].as_slice()) {
            Ok(p) => {
                out.push(p);
                proof {
                    assert(out@.map_values(|q: PacketInfo| q@) =~= spec_decoded_batch(
                        raw,
                        i as int + 1,
                    ));
                }
            },
            Err(_) => {
                proof {
                    assert(out@.map_values(|q: PacketInfo| q@) =~= spec_decoded_batch(
                        raw,
                        i as int + 1,
                    ));
                }
            },
        }
        i = i + 1;
    }
    if out.len() == 0 {
        PollDecision::Retry
    } else {
        PollDecision::Deliver(out)
    }
}

} // verus!
