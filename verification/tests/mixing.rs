use ebeepyf::mix::{CHANNELS, PEAK_GAIN_BOUND_MICRO, SAMPLE_RATE, SEGMENT_MS, mix_batch, normalized_gain};
use ebeepyf::packet::{IPP, PacketInfo};
use ebeepyf::tone::u8_to_freq;

fn record(ip: [u8; 4]) -> PacketInfo {
    PacketInfo::new(IPP::new(ip, 1000), IPP::new([9, 9, 9, 9], 2000))
}

#[test]
fn single_record_single_worker_segment() {
    let batch = vec![record([10, 0, 0, 1])];
    let seg = mix_batch(&batch, 1);
    assert_eq!(seg.duration_ms, SEGMENT_MS);
    assert_eq!(seg.sample_rate, SAMPLE_RATE);
    assert_eq!(seg.channels, CHANNELS);
    assert_eq!(seg.voices.len(), 4);
    assert_eq!(seg.voices[0].freq_mhz, u8_to_freq(10));
    assert_eq!(seg.voices[1].freq_mhz, u8_to_freq(0));
    assert_eq!(seg.voices[2].freq_mhz, u8_to_freq(0));
    assert_eq!(seg.voices[3].freq_mhz, u8_to_freq(1));
    // one worker, one packet: the base per-voice gain survives unscaled
    for v in seg.voices.iter() {
        assert_eq!(v.gain_micro, 200_000);
    }
}

#[test]
fn normalized_gain_follows_the_law() {
    assert_eq!(normalized_gain(1, 1), 200_000);
    assert_eq!(normalized_gain(2, 5), 20_000);
    assert_eq!(normalized_gain(1, 0), 200_000);
    assert_eq!(normalized_gain(4, 10), 5_000);
    assert_eq!(normalized_gain(256, 1000), 0);
}

#[test]
fn peak_amplitude_bounded_over_sweep() {
    for &workers in &[1usize, 2, 7, 256] {
        for batch_size in 1usize..=60 {
            let mut batch = Vec::new();
            for i in 0..batch_size {
                batch.push(record([i as u8, (i / 4) as u8, 255, 1]));
            }
            let seg = mix_batch(&batch, workers);
            assert_eq!(seg.voices.len(), 4 * batch_size);
            let total: u64 = seg.voices.iter().map(|v| v.gain_micro as u64).sum();
            assert!(total <= PEAK_GAIN_BOUND_MICRO as u64);
        }
    }
}

#[test]
fn empty_batch_gives_silent_segment() {
    let batch: Vec<PacketInfo> = Vec::new();
    let seg = mix_batch(&batch, 3);
    assert_eq!(seg.voices.len(), 0);
    assert_eq!(seg.duration_ms, SEGMENT_MS);
}
