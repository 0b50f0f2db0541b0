//! Notes, modifiers, the frequency table and the bank of voices.

use std::collections::HashMap;
use vstd::prelude::*;

verus! {

broadcast use vstd::std_specs::hash::group_hash_axioms;

/// Rate, in frames per second, at which the sink renders.
pub const SAMPLE_RATE: u32 = 44_100;

/// Tells whether an output that offers the frame rates from `min_rate` to
/// `max_rate` can render at the sink's rate.
pub fn supports_sample_rate(min_rate: u32, max_rate: u32) -> (supported: bool)
    ensures
        supported == (min_rate <= SAMPLE_RATE && SAMPLE_RATE <= max_rate),
{
    !(min_rate > SAMPLE_RATE || max_rate < SAMPLE_RATE)
}

/// Number of entries of the frequency table.
pub const FREQ_COUNT: usize = 72;

/// Frequencies in hertz (A = 442 Hz), nine per note from C to the C above:
/// the low, middle and high octave, each as flat, natural and sharp.
pub const FREQ_TABLE: [usize; 72] = [
    // C
    248, 263, 278, 496, 526, 557, 992, 1051, 1114,
    // D
    278, 295, 313, 557, 590, 625, 1114, 1180, 1250,
    // E
    313, 331, 351, 625, 662, 702, 1250, 1325, 1403,
    // F
    331, 351, 372, 662, 702, 743, 1325, 1403, 1487,
    // G
    372, 394, 417, 743, 788, 834, 1487, 1575, 1669,
    // A
    417, 442, 468, 834, 884, 937, 1669, 1768, 1873,
    // B
    468, 496, 526, 937, 992, 1051, 1873, 1985, 2103,
    // C2
    496, 526, 557, 992, 1051, 1114, 1985, 2103, 2228,
];

/// Diatonic pitch of a melody button, before any modifier.
#[derive(Clone, Copy, Debug, PartialEq, Eq, Structural)]
pub enum Note {
    C,
    D,
    E,
    F,
    G,
    A,
    B,
    C2,
}

/// Shift by a semitone.
#[derive(Clone, Copy, Debug, PartialEq, Eq, Structural)]
pub enum Semitone {
    FLAT,
    NONE,
    SHARP,
}

/// Shift by an octave.
#[derive(Clone, Copy, Debug, PartialEq, Eq, Structural)]
pub enum Octave {
    DOWN,
    NONE,
    UP,
}

impl Note {
    /// Position of the note in the scale, from 0 for C to 7 for the upper C.
    pub open spec fn ordinal(self) -> int {
        match self {
            Note::C => 0,
            Note::D => 1,
            Note::E => 2,
            Note::F => 3,
            Note::G => 4,
            Note::A => 5,
            Note::B => 6,
            Note::C2 => 7,
        }
    }

    /// The note's position as a number.
    pub fn int_value(self) -> (value: usize)
        ensures
            value == self.ordinal(),
    {
        match self {
            Note::C => 0,
            Note::D => 1,
            Note::E => 2,
            Note::F => 3,
            Note::G => 4,
            Note::A => 5,
            Note::B => 6,
            Note::C2 => 7,
        }
    }
}

impl Semitone {
    /// 0 for flat, 1 for natural, 2 for sharp.
    pub open spec fn ordinal(self) -> int {
        match self {
            Semitone::FLAT => 0,
            Semitone::NONE => 1,
            Semitone::SHARP => 2,
        }
    }

    /// The shift as a number.
    pub fn int_value(self) -> (value: usize)
        ensures
            value == self.ordinal(),
    {
        match self {
            Semitone::FLAT => 0,
            Semitone::NONE => 1,
            Semitone::SHARP => 2,
        }
    }
}

impl Octave {
    /// 0 for the low octave, 1 for the middle one, 2 for the high one.
    pub open spec fn ordinal(self) -> int {
        match self {
            Octave::DOWN => 0,
            Octave::NONE => 1,
            Octave::UP => 2,
        }
    }

    /// The shift as a number.
    pub fn int_value(self) -> (value: usize)
        ensures
            value == self.ordinal(),
    {
        match self {
            Octave::DOWN => 0,
            Octave::NONE => 1,
            Octave::UP => 2,
        }
    }
}

/// Place in the frequency table of a note under the two modifiers.
pub open spec fn freq_index(note: Note, octave: Octave, semitone: Semitone) -> int {
    9 * note.ordinal() + 3 * octave.ordinal() + semitone.ordinal()
}

/// Frequency in hertz of a note under the two modifiers.
pub open spec fn freq_of(note: Note, octave: Octave, semitone: Semitone) -> usize {
    FREQ_TABLE@[freq_index(note, octave, semitone)]
}

/// Every combination of note, octave and semitone has a place inside the
/// table, and no two combinations share one.
pub proof fn lemma_freq_index_injective(
    note1: Note,
    octave1: Octave,
    semitone1: Semitone,
    note2: Note,
    octave2: Octave,
    semitone2: Semitone,
)
    ensures
        0 <= freq_index(note1, octave1, semitone1) < 72,
        freq_index(note1, octave1, semitone1) == freq_index(note2, octave2, semitone2) ==> note1
            == note2 && octave1 == octave2 && semitone1 == semitone2,
{
}

/// Every place of the table belongs to some combination of note, octave and
/// semitone.
pub proof fn lemma_freq_index_onto(index: int)
    requires
        0 <= index < 72,
    ensures
        exists|note: Note, octave: Octave, semitone: Semitone|
            freq_index(note, octave, semitone) == index,
{
    let note = if index < 9 {
        Note::C
    } else if index < 18 {
        Note::D
    } else if index < 27 {
        Note::E
    } else if index < 36 {
        Note::F
    } else if index < 45 {
        Note::G
    } else if index < 54 {
        Note::A
    } else if index < 63 {
        Note::B
    } else {
        Note::C2
    };
    let rest = index - 9 * note.ordinal();
    let octave = if rest < 3 {
        Octave::DOWN
    } else if rest < 6 {
        Octave::NONE
    } else {
        Octave::UP
    };
    let last = rest - 3 * octave.ordinal();
    let semitone = if last == 0 {
        Semitone::FLAT
    } else if last == 1 {
        Semitone::NONE
    } else {
        Semitone::SHARP
    };
    assert(freq_index(note, octave, semitone) == index);
}

/// Shape of the wave that a voice oscillates with.
#[derive(Clone, Copy, Debug, PartialEq, Eq, Structural)]
pub enum Waveform {
    Sine,
    Saw,
    Triangle,
    Square,
    Noise,
}

/// Descriptor of one synthesizer voice: what the sink needs to render a note
/// from its attack to the end of its release.
#[derive(Clone, Copy, Debug, PartialEq, Eq, Structural)]
pub struct Sample {
    /// Frequency of the oscillator, in hertz.
    pub osc_frequency: usize,
    /// Shape of the oscillator's wave.
    pub osc_type: Waveform,
    /// Time to reach full height, in milliseconds.
    pub env_attack_ms: u32,
    /// Time to fall from full height to the plateau, in milliseconds.
    pub env_decay_ms: u32,
    /// Height of the plateau, in percent of full height.
    pub env_sustain_percent: u32,
    /// Time to fall from the plateau to silence, in milliseconds.
    pub env_release_ms: u32,
    /// Amount of hard-clipping overdrive, in percent.
    pub dis_crunch_percent: u32,
}

/// The voice that plays `freq` hertz.
pub open spec fn sample_for(freq: usize) -> Sample {
    Sample {
        osc_frequency: freq,
        osc_type: Waveform::Sine,
        env_attack_ms: 100,
        env_decay_ms: 100,
        env_sustain_percent: 50,
        env_release_ms: 500,
        dis_crunch_percent: 20,
    }
}

/// Builds the voice that plays `freq` hertz.
pub fn gen_sample(freq: usize) -> (sample: Sample)
    ensures
        sample == sample_for(freq),
{
    Sample {
        osc_frequency: freq,
        osc_type: Waveform::Sine,
        env_attack_ms: 100,
        env_decay_ms: 100,
        env_sustain_percent: 50,
        env_release_ms: 500,
        dis_crunch_percent: 20,
    }
}

/// The bank that holds one voice for each distinct frequency of the table,
/// and nothing else.
pub open spec fn full_bank() -> Map<usize, Sample> {
    Map::new(|freq: usize| FREQ_TABLE@.contains(freq), |freq: usize| sample_for(freq))
}

/// The triggering side of the audio sink: a bank of voices, built once, from
/// which each note-on event takes its copy.
pub struct Audio {
    samples: HashMap<usize, Sample>,
}

impl Audio {
    #[verifier::type_invariant]
    spec fn bank_is_full(self) -> bool {
        self.samples@ == full_bank()
    }

    /// The voices held, by frequency.
    pub closed spec fn bank(&self) -> Map<usize, Sample> {
        self.samples@
    }

    /// Builds the bank from the frequency table, one voice per distinct
    /// frequency.
    pub fn new() -> (audio: Audio)
        ensures
            audio.bank() == full_bank(),
    {
        let mut samples: HashMap<usize, Sample> = HashMap::new();
        for i in 0..FREQ_COUNT
            invariant
                forall|freq: usize|
                    samples@.contains_key(freq) <==> FREQ_TABLE@.take(i as int).contains(freq),
                forall|freq: usize|
                    samples@.contains_key(freq) ==> samples@[freq] == sample_for(freq),
        {
            let freq = FREQ_TABLE[i];
            if !samples.contains_key(&freq) {
                let sample = gen_sample(freq);
                samples.insert(freq, sample);
            }
            proof {
                let seen = FREQ_TABLE@.take(i as int);
                assert(FREQ_TABLE@.take(i + 1) == seen.push(freq));
                assert forall|f: usize| seen.push(freq).contains(f) <==> seen.contains(f) || f
                    == freq by {
                    if seen.contains(f) {
                        let j = choose|j: int| 0 <= j < seen.len() && seen[j] == f;
                        assert(seen.push(freq)[j] == f);
                    }
                    if f == freq {
                        assert(seen.push(freq)[i as int] == f);
                    }
                }
            }
        }
        proof {
            assert(FREQ_TABLE@.take(FREQ_COUNT as int) == FREQ_TABLE@);
            assert(samples@ =~= full_bank());
        }
        Audio { samples }
    }

    /// Looks up the voice registered for `frequency`: there is one exactly
    /// for the frequencies of the table.
    pub fn trigger(&self, frequency: usize) -> (voice: Option<Sample>)
        ensures
            FREQ_TABLE@.contains(frequency) ==> voice == Some(sample_for(frequency)),
            !FREQ_TABLE@.contains(frequency) ==> voice is None,
    {
        proof {
            use_type_invariant(self);
        }
        match self.samples.get(&frequency) {
            Some(sample) => Some(*sample),
            None => None,
        }
    }

    /// Resolves a note under the two modifiers to its voice, a copy of which
    /// the caller hands to the mixer.
    pub fn play(&self, note: Note, semitone: Semitone, octave: Octave) -> (sample: Sample)
        ensures
            sample == sample_for(freq_of(note, octave, semitone)),
    {
        let freq = self.get_freq(note, semitone, octave);
        proof {
            lemma_freq_index_injective(note, octave, semitone, note, octave, semitone);
            assert(FREQ_TABLE@[freq_index(note, octave, semitone)] == freq);
        }
        self.trigger(freq).unwrap()
    }

    /// Frequency in hertz of a note under the two modifiers.
    pub fn get_freq(&self, note: Note, semitone: Semitone, octave: Octave) -> (freq: usize)
        ensures
            freq == freq_of(note, octave, semitone),
    {
        let freq_index: usize = 9 * note.int_value() + 3 * octave.int_value()
            + semitone.int_value();
        FREQ_TABLE[freq_index]
    }
}

} // verus!
