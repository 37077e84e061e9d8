//! Mixing and gain normalization: a batch of packet records becomes one
//! bounded-duration segment of voices, each voice's gain scaled by the number
//! of concurrent workers and the batch size so that the summed signal never
//! clips however traffic scales.
//!
//! Every voice's samples are a sine of magnitude at most its gain, so the sum
//! of the gains of a segment bounds the segment's peak amplitude; the library
//! therefore proves its amplitude budget as a bound on that sum.

use vstd::prelude::*;
use vstd::arithmetic::div_mod::{lemma_basic_div, lemma_div_pos_is_pos, lemma_fundamental_div_mod, lemma_mod_pos_bound};
use vstd::arithmetic::mul::lemma_mul_inequality;
use crate::packet::{PacketInfo, PacketModel};
use crate::tone::{Voice, VOICE_GAIN_MICRO, spec_ip_voices, per_ip_voices};

verus! {

/// Duration of one mixed segment, in milliseconds.
pub const SEGMENT_MS: u32 = 100;

/// Sample rate a segment is meant to be rendered at, in hertz.
pub const SAMPLE_RATE: u32 = 48_000;

/// A segment is mono.
pub const CHANNELS: u16 = 1;

/// The amplitude budget of one segment, in millionths of full scale: the sum
/// of all voice gains of a segment never exceeds it, whatever the batch size
/// or the number of workers.
pub const PEAK_GAIN_BOUND_MICRO: u32 = 800_000;

/// One cycle's output: a finite, fixed-duration plan of simultaneous voices.
/// The audio edge renders the voices into samples and forwards them; the
/// segment itself is not retained past emission.
pub struct MixedSegment {
    pub voices: Vec<Voice>,
    pub duration_ms: u32,
    pub sample_rate: u32,
    pub channels: u16,
}

/// The sum of the gains of a sequence of voices: an upper bound, in
/// millionths of full scale, on the peak amplitude of their summed signals.
pub open spec fn gain_sum(vs: Seq<Voice>) -> int
    decreases vs.len(),
{
    if vs.len() == 0 {
        0
    } else {
        gain_sum(vs.drop_last()) + vs.last().gain_micro
    }
}

impl MixedSegment {
    /// A well-formed segment has the fixed target duration, rate and channel
    /// count, and keeps within the amplitude budget.
    pub open spec fn wf(self) -> bool {
        &&& self.duration_ms == SEGMENT_MS
        &&& self.sample_rate == SAMPLE_RATE
        &&& self.channels == CHANNELS
        &&& gain_sum(self.voices@) <= PEAK_GAIN_BOUND_MICRO
    }
}

/// The normalization law: each voice's base gain is divided by the worker
/// fan-in count times the batch size (an empty batch counts as one).
pub open spec fn spec_normalized_gain(num_workers: int, batch_len: int) -> u32 {
    (VOICE_GAIN_MICRO as int / (num_workers * (if batch_len >= 1 { batch_len } else { 1 }))) as u32
}

/// All voices of one batch, in batch order: four per record, derived from the
/// record's source address, each at the given gain.
pub open spec fn spec_batch_voices(batch: Seq<PacketModel>, gain_micro: u32) -> Seq<Voice>
    decreases batch.len(),
{
    if batch.len() == 0 {
        Seq::empty()
    } else {
        spec_batch_voices(batch.drop_last(), gain_micro) + spec_ip_voices(batch.last().src.ip, gain_micro)
    }
}

proof fn lemma_gain_sum_push(vs: Seq<Voice>, v: Voice)
    ensures
        gain_sum(vs.push(v)) == gain_sum(vs) + v.gain_micro,
{
    assert(vs.push(v).drop_last() =~= vs);
}

proof fn lemma_gain_sum_ip_voices(vs: Seq<Voice>, ip: Seq<u8>, gain_micro: u32)
    ensures
        gain_sum(vs + spec_ip_voices(ip, gain_micro)) == gain_sum(vs) + 4 * gain_micro,
{
    let s = spec_ip_voices(ip, gain_micro);
    assert(vs + s =~= vs.push(s[0]).push(s[1]).push(s[2]).push(s[3]));
    lemma_gain_sum_push(vs, s[0]);
    lemma_gain_sum_push(vs.push(s[0]), s[1]);
    lemma_gain_sum_push(vs.push(s[0]).push(s[1]), s[2]);
    lemma_gain_sum_push(vs.push(s[0]).push(s[1]).push(s[2]), s[3]);
}

proof fn lemma_gain_sum_batch(batch: Seq<PacketModel>, gain_micro: u32)
    ensures
        gain_sum(spec_batch_voices(batch, gain_micro)) == 4 * batch.len() * gain_micro,
    decreases batch.len(),
{
    if batch.len() == 0 {
        assert(4 * batch.len() * gain_micro == 0) by (nonlinear_arith)
            requires batch.len() == 0;
    } else {
        let rest = batch.drop_last();
        lemma_gain_sum_batch(rest, gain_micro);
        lemma_gain_sum_ip_voices(spec_batch_voices(rest, gain_micro), batch.last().src.ip, gain_micro);
        let k = rest.len() as int;
        let g = gain_micro as int;
        assert(4 * k * g + 4 * g == 4 * (k + 1) * g) by (nonlinear_arith);
        assert(gain_sum(spec_batch_voices(batch, gain_micro)) == 4 * k * g + 4 * g);
        assert(k + 1 == batch.len());
        assert(4 * (k + 1) * g == 4 * batch.len() * gain_micro) by (nonlinear_arith)
            requires
                k + 1 == batch.len(),
                g == gain_micro,
        ;
    }
}

/// The amplitude budget holds of every batch under the normalization law:
/// however many records the batch holds and however many workers feed the
/// sink, the gains of the mixed voices sum to at most `PEAK_GAIN_BOUND_MICRO`.
pub proof fn lemma_batch_gain_bounded(batch: Seq<PacketModel>, num_workers: int)
    requires
        num_workers >= 1,
    ensures
        gain_sum(spec_batch_voices(batch, spec_normalized_gain(num_workers, batch.len() as int)))
            <= PEAK_GAIN_BOUND_MICRO,
{
    let n = batch.len() as int;
    let m: int = if n >= 1 { n } else { 1 };
    let d = num_workers * m;
    assert(d >= m >= 1) by (nonlinear_arith)
        requires num_workers >= 1 && m >= 1 && d == num_workers * m;
    let q = VOICE_GAIN_MICRO as int / d;
    lemma_div_pos_is_pos(VOICE_GAIN_MICRO as int, d);
    lemma_fundamental_div_mod(VOICE_GAIN_MICRO as int, d);
    lemma_mod_pos_bound(VOICE_GAIN_MICRO as int, d);
    assert(d * q <= VOICE_GAIN_MICRO);
    let g = spec_normalized_gain(num_workers, n);
    assert(q <= VOICE_GAIN_MICRO) by {
        lemma_mul_inequality(1, d, q);
    }
    assert(g == q);
    lemma_gain_sum_batch(batch, g);
    assert(n * q <= d * q) by (nonlinear_arith)
        requires n <= m <= d && q >= 0;
    assert(4 * n * q <= 4 * (d * q)) by (nonlinear_arith)
        requires n * q <= d * q;
}

/// Compute the normalized per-voice gain for one cycle.
pub fn normalized_gain(num_workers: usize, batch_len: usize) -> (g: u32)
    requires
        num_workers >= 1,
    ensures
        g == spec_normalized_gain(num_workers as int, batch_len as int),
        g <= VOICE_GAIN_MICRO,
{
    let m: u64 = if batch_len >= 1 { batch_len as u64 } else { 1 };
    match (num_workers as u64).checked_mul(m) {
        Some(d) => {
            proof {
                assert(d >= 1) by (nonlinear_arith)
                    requires
                        num_workers >= 1,
                        m >= 1,
                        d == num_workers * m,
                ;
                lemma_div_pos_is_pos(VOICE_GAIN_MICRO as int, d as int);
                lemma_fundamental_div_mod(VOICE_GAIN_MICRO as int, d as int);
                lemma_mod_pos_bound(VOICE_GAIN_MICRO as int, d as int);
                lemma_mul_inequality(1, d as int, VOICE_GAIN_MICRO as int / d as int);
            }
            (VOICE_GAIN_MICRO as u64 / d) as u32
        },
        None => {
            proof {
                let d = num_workers as int * m as int;
                lemma_basic_div(VOICE_GAIN_MICRO as int, d);
            }
            0
        },
    }
}

/// Mix one batch: derive each record's voices from its source address, apply
/// the normalization law, and wrap them in a fresh fixed-duration segment.
/// The result is well formed, in particular within the amplitude budget.
pub fn mix_batch(batch: &Vec<PacketInfo>, num_workers: usize) -> (seg: MixedSegment)
    requires
        num_workers >= 1,
    ensures
        seg.voices@ == spec_batch_voices(
            batch@.map_values(|p: PacketInfo| p@),
            spec_normalized_gain(num_workers as int, batch@.len() as int),
        ),
        seg.duration_ms == SEGMENT_MS,
        seg.sample_rate == SAMPLE_RATE,
        seg.channels == CHANNELS,
        seg.wf(),
{
    let ghost models = batch@.map_values(|p: PacketInfo| p@);
    let g = normalized_gain(num_workers, batch.len());
    let mut voices: Vec<Voice> = Vec::new();
    let mut i: usize = 0;
    while i < batch.len()
        invariant
            i <= batch@.len(),
            models == batch@.map_values(|p: PacketInfo| p@),
            voices@ == spec_batch_voices(models.take(i as int), g),
        decreases batch@.len() - i,
    {
        let mut vs = per_ip_voices(&batch[i].src.ip, g);
        proof {
            let taken = models.take(i as int + 1);
            assert(taken.drop_last() =~= models.take(i as int));
            assert(voices@ + vs@ == spec_batch_voices(taken, g));
        }
        voices.append(&mut vs);
        i = i + 1;
    }
    proof {
        assert(models.take(batch@.len() as int) =~= models);
        lemma_batch_gain_bounded(models, num_workers as int);
    }
    MixedSegment { voices, duration_ms: SEGMENT_MS, sample_rate: SAMPLE_RATE, channels: CHANNELS }
}

} // verus!
