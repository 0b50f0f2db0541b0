use bard_pad::audio::{
    gen_sample, supports_sample_rate, Audio, Note, Octave, Sample, Semitone, Waveform, FREQ_COUNT,
    FREQ_TABLE, SAMPLE_RATE,
};

const NOTES: [Note; 8] = [
    Note::C,
    Note::D,
    Note::E,
    Note::F,
    Note::G,
    Note::A,
    Note::B,
    Note::C2,
];

const OCTAVES: [Octave; 3] = [Octave::DOWN, Octave::NONE, Octave::UP];

const SEMITONES: [Semitone; 3] = [Semitone::FLAT, Semitone::NONE, Semitone::SHARP];

#[test]
fn table_constants() {
    assert_eq!(SAMPLE_RATE, 44_100);
    assert_eq!(FREQ_COUNT, 72);
    assert_eq!(FREQ_TABLE.len(), 72);
    assert_eq!(FREQ_TABLE[0], 248);
    assert_eq!(FREQ_TABLE[10], 295);
    assert_eq!(FREQ_TABLE[46], 442);
    assert_eq!(FREQ_TABLE[67], 1051);
    assert_eq!(FREQ_TABLE[71], 2228);
}

#[test]
fn ordinals_count_from_zero() {
    for (i, note) in NOTES.iter().enumerate() {
        assert_eq!(note.int_value(), i);
    }
    for (i, octave) in OCTAVES.iter().enumerate() {
        assert_eq!(octave.int_value(), i);
    }
    for (i, semitone) in SEMITONES.iter().enumerate() {
        assert_eq!(semitone.int_value(), i);
    }
}

#[test]
fn flattened_index_is_in_range_and_injective() {
    let mut seen = [false; 72];
    for note in NOTES.iter() {
        for octave in OCTAVES.iter() {
            for semitone in SEMITONES.iter() {
                let index = 9 * note.int_value() + 3 * octave.int_value() + semitone.int_value();
                assert!(index < 72);
                assert!(!seen[index]);
                seen[index] = true;
            }
        }
    }
    assert!(seen.iter().all(|hit| *hit));
}

#[test]
fn get_freq_reads_the_table_at_the_flattened_index() {
    let audio = Audio::new();
    for note in NOTES.iter() {
        for octave in OCTAVES.iter() {
            for semitone in SEMITONES.iter() {
                let index = 9 * note.int_value() + 3 * octave.int_value() + semitone.int_value();
                assert_eq!(audio.get_freq(*note, *semitone, *octave), FREQ_TABLE[index]);
            }
        }
    }
}

#[test]
fn get_freq_exact_values() {
    let audio = Audio::new();
    assert_eq!(audio.get_freq(Note::C, Semitone::FLAT, Octave::DOWN), 248);
    assert_eq!(audio.get_freq(Note::C, Semitone::SHARP, Octave::DOWN), 278);
    assert_eq!(audio.get_freq(Note::C, Semitone::FLAT, Octave::UP), 992);
    assert_eq!(audio.get_freq(Note::A, Semitone::NONE, Octave::DOWN), 442);
    assert_eq!(audio.get_freq(Note::A, Semitone::NONE, Octave::NONE), 884);
    assert_eq!(audio.get_freq(Note::G, Semitone::SHARP, Octave::NONE), 834);
    assert_eq!(audio.get_freq(Note::C2, Semitone::NONE, Octave::NONE), 1051);
    assert_eq!(audio.get_freq(Note::C2, Semitone::SHARP, Octave::UP), 2228);
}

#[test]
fn gen_sample_fills_the_descriptor() {
    let sample = gen_sample(442);
    assert_eq!(
        sample,
        Sample {
            osc_frequency: 442,
            osc_type: Waveform::Sine,
            env_attack_ms: 100,
            env_decay_ms: 100,
            env_sustain_percent: 50,
            env_release_ms: 500,
            dis_crunch_percent: 20,
        }
    );
    assert_eq!(gen_sample(0).osc_frequency, 0);
    assert_eq!(gen_sample(usize::MAX).osc_frequency, usize::MAX);
}

#[test]
fn trigger_knows_the_frequencies_of_the_table_only() {
    let audio = Audio::new();
    for freq in FREQ_TABLE.iter() {
        assert_eq!(audio.trigger(*freq), Some(gen_sample(*freq)));
    }
    for freq in [0usize, 1, 247, 249, 440, 1050, 1052, 2229, 44_100, usize::MAX] {
        assert_eq!(audio.trigger(freq), None);
    }
}

#[test]
fn play_hands_out_the_voice_of_the_resolved_frequency() {
    let audio = Audio::new();
    for note in NOTES.iter() {
        for octave in OCTAVES.iter() {
            for semitone in SEMITONES.iter() {
                let index = 9 * note.int_value() + 3 * octave.int_value() + semitone.int_value();
                let sample = audio.play(*note, *semitone, *octave);
                assert_eq!(sample, gen_sample(FREQ_TABLE[index]));
            }
        }
    }
    assert_eq!(audio.play(Note::C2, Semitone::NONE, Octave::NONE).osc_frequency, 1051);
    assert_eq!(audio.play(Note::D, Semitone::FLAT, Octave::DOWN).osc_frequency, 278);
}

#[test]
fn equal_frequencies_share_one_voice() {
    let audio = Audio::new();
    let c_sharp = audio.play(Note::C, Semitone::SHARP, Octave::DOWN);
    let d_flat = audio.play(Note::D, Semitone::FLAT, Octave::DOWN);
    assert_eq!(c_sharp, d_flat);
    let high_c = audio.play(Note::C, Semitone::NONE, Octave::NONE);
    let low_c2 = audio.play(Note::C2, Semitone::NONE, Octave::DOWN);
    assert_eq!(high_c, low_c2);
    assert_eq!(high_c.osc_frequency, 526);
}

#[test]
fn sample_rate_must_lie_in_the_offered_range() {
    assert!(supports_sample_rate(44_100, 44_100));
    assert!(supports_sample_rate(8_000, 192_000));
    assert!(supports_sample_rate(0, u32::MAX));
    assert!(supports_sample_rate(44_100, 48_000));
    assert!(supports_sample_rate(22_050, 44_100));
    assert!(!supports_sample_rate(44_101, 48_000));
    assert!(!supports_sample_rate(8_000, 44_099));
    assert!(!supports_sample_rate(48_000, 44_100));
    assert!(!supports_sample_rate(48_000, 8_000));
}
