//! Tone mapping: every byte of a source address is scaled linearly into the
//! audible band, giving four simultaneous voices per observed source.
//!
//! Frequencies are carried in millihertz and gains in millionths of full
//! scale, so the mapping law and the amplitude budget are exact integer
//! arithmetic; the audio edge divides them back down when it synthesizes
//! samples.

use vstd::prelude::*;
use vstd::arithmetic::div_mod::lemma_div_is_ordered;
use vstd::arithmetic::mul::lemma_mul_inequality;

verus! {

/// Lower edge of the audible band, in millihertz (31 Hz).
pub const FREQ_MIN_MHZ: u32 = 31_000;

/// Upper edge of the audible band, in millihertz (19 kHz).
pub const FREQ_MAX_MHZ: u32 = 19_000_000;

/// Gain of one voice before normalization, in millionths of full scale
/// (one fifth, so four voices of one source sum well below full scale).
pub const VOICE_GAIN_MICRO: u32 = 200_000;

/// One synthesized tone: a frequency in millihertz and a gain in millionths
/// of full scale.
#[derive(Copy, Clone, Debug, PartialEq, Eq, Structural)]
pub struct Voice {
    pub freq_mhz: u32,
    pub gain_micro: u32,
}

/// The frequency scaling law: a byte value is mapped linearly from
/// `0..=255` onto `FREQ_MIN_MHZ..=FREQ_MAX_MHZ`.
pub open spec fn spec_u8_to_freq(n: u8) -> u32 {
    (n * ((FREQ_MAX_MHZ - FREQ_MIN_MHZ) as int) / 255 + FREQ_MIN_MHZ) as u32
}

/// The four voices of one source address: one per address byte, each with the
/// same gain.
pub open spec fn spec_ip_voices(ip: Seq<u8>, gain_micro: u32) -> Seq<Voice> {
    seq![
        Voice { freq_mhz: spec_u8_to_freq(ip[0]), gain_micro },
        Voice { freq_mhz: spec_u8_to_freq(ip[1]), gain_micro },
        Voice { freq_mhz: spec_u8_to_freq(ip[2]), gain_micro },
        Voice { freq_mhz: spec_u8_to_freq(ip[3]), gain_micro },
    ]
}

/// Scale one byte into the audible band.
pub fn u8_to_freq(n: u8) -> (f: u32)
    ensures
        f == spec_u8_to_freq(n),
        FREQ_MIN_MHZ <= f <= FREQ_MAX_MHZ,
{
    let span: u64 = (FREQ_MAX_MHZ - FREQ_MIN_MHZ) as u64;
    proof {
        lemma_mul_inequality(n as int, 255, span as int);
        lemma_div_is_ordered(n as int * span as int, 255 * span as int, 255);
    }
    let scaled: u64 = n as u64 * span / 255;
    let f: u64 = scaled + FREQ_MIN_MHZ as u64;
    f as u32
}

/// The four voices of one source address, at a given per-voice gain.
pub fn per_ip_voices(ip: &[u8; 4], gain_micro: u32) -> (vs: Vec<Voice>)
    ensures
        vs@ == spec_ip_voices(ip@, gain_micro),
        vs@.len() == 4,
{
    let mut vs: Vec<Voice> = Vec::new();
    vs.push(Voice { freq_mhz: u8_to_freq(ip[0]), gain_micro });
    vs.push(Voice { freq_mhz: u8_to_freq(ip[1]), gain_micro });
    vs.push(Voice { freq_mhz: u8_to_freq(ip[2]), gain_micro });
    vs.push(Voice { freq_mhz: u8_to_freq(ip[3]), gain_micro });
    proof {
        assert(vs@ =~= spec_ip_voices(ip@, gain_micro));
    }
    vs
}

/// Tone mapping is deterministic: the voices of a source depend on its
/// address bytes and the requested gain alone, so two mappings of equal
/// addresses agree in every frequency.
pub proof fn lemma_tone_mapping_deterministic(a: Seq<u8>, b: Seq<u8>, gain_micro: u32)
    requires
        a == b,
    ensures
        spec_ip_voices(a, gain_micro) == spec_ip_voices(b, gain_micro),
{
}

} // verus!
