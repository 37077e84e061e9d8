use ebeepyf::tone::{FREQ_MAX_MHZ, FREQ_MIN_MHZ, VOICE_GAIN_MICRO, per_ip_voices, u8_to_freq};

#[test]
fn frequency_law_exact_values() {
    // freq = n * (max - min) / 255 + min, in millihertz
    assert_eq!(u8_to_freq(0), 31_000);
    assert_eq!(u8_to_freq(255), 19_000_000);
    assert_eq!(u8_to_freq(1), 105_388);
    assert_eq!(u8_to_freq(10), 774_882);
}

#[test]
fn frequency_stays_in_audible_band() {
    let mut n: u16 = 0;
    while n <= 255 {
        let f = u8_to_freq(n as u8);
        assert!(FREQ_MIN_MHZ <= f && f <= FREQ_MAX_MHZ);
        n += 1;
    }
}

#[test]
fn tone_mapping_is_deterministic() {
    let addr = [10u8, 0, 0, 1];
    let first = per_ip_voices(&addr, VOICE_GAIN_MICRO);
    let second = per_ip_voices(&addr, VOICE_GAIN_MICRO);
    assert_eq!(first.len(), second.len());
    for i in 0..first.len() {
        assert_eq!(first[i].freq_mhz, second[i].freq_mhz);
        assert_eq!(first[i].gain_micro, second[i].gain_micro);
    }
    assert_eq!(u8_to_freq(42), u8_to_freq(42));
}

#[test]
fn one_voice_per_address_byte() {
    let addr = [10u8, 0, 0, 1];
    let voices = per_ip_voices(&addr, 125);
    assert_eq!(voices.len(), 4);
    assert_eq!(voices[0].freq_mhz, u8_to_freq(10));
    assert_eq!(voices[1].freq_mhz, u8_to_freq(0));
    assert_eq!(voices[2].freq_mhz, u8_to_freq(0));
    assert_eq!(voices[3].freq_mhz, u8_to_freq(1));
    for v in voices.iter() {
        assert_eq!(v.gain_micro, 125);
    }
}
