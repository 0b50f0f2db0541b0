//! The tick: read, resolve the modifiers, and turn press edges into voices.

use crate::audio::{
    freq_of, full_bank, sample_for, Audio, Note, Octave, Sample, Semitone,
};
use crate::gamepad::{Button, Gamepad};
use crate::report::{delivered, Reports};
use vstd::prelude::*;

verus! {

/// The melody buttons with their notes, in the order in which a tick looks
/// at them.
pub const NOTE_MAP: [(Button, Note); 8] = [
    (Button::LEFT, Note::C),
    (Button::UP, Note::D),
    (Button::RIGHT, Note::E),
    (Button::DOWN, Note::F),
    (Button::X, Note::G),
    (Button::Y, Note::A),
    (Button::B, Note::B),
    (Button::A, Note::C2),
];

/// The semitone shift that two held states give: each button alone gives
/// its shift, both together cancel out.
pub open spec fn resolved_semitone(flat: bool, sharp: bool) -> Semitone {
    if flat && !sharp {
        Semitone::FLAT
    } else if !flat && sharp {
        Semitone::SHARP
    } else {
        Semitone::NONE
    }
}

/// The octave shift that two held states give: each button alone gives its
/// shift, both together cancel out.
pub open spec fn resolved_octave(down: bool, up: bool) -> Octave {
    if down && !up {
        Octave::DOWN
    } else if !down && up {
        Octave::UP
    } else {
        Octave::NONE
    }
}

/// The semitone shift in force under `reports`: flat while the left
/// shoulder button is held, sharp while the right one is.
pub open spec fn semitone_of(reports: Reports) -> Semitone {
    resolved_semitone(reports.pushed(Button::LB), reports.pushed(Button::RB))
}

/// The octave shift in force under `reports`: down while the left trigger
/// is held, up while the right one is.
pub open spec fn octave_of(reports: Reports) -> Octave {
    resolved_octave(reports.pushed(Button::LT), reports.pushed(Button::RT))
}

/// The voice that one melody button triggers under `reports`, if it was
/// pressed between the two reports.
pub open spec fn voice_of(reports: Reports, entry: (Button, Note)) -> Option<Sample> {
    if reports.pressed(entry.0) {
        Some(sample_for(freq_of(entry.1, octave_of(reports), semitone_of(reports))))
    } else {
        None
    }
}

/// The voices that a tick triggers under `reports`: one for each melody
/// button that was pressed, in the order of the note map.
pub open spec fn fired(reports: Reports) -> Seq<Sample> {
    NOTE_MAP@.filter_map(|entry: (Button, Note)| voice_of(reports, entry))
}

/// Each modifier button alone gives its shift; both together, or neither,
/// give none. What the other axis holds does not matter.
pub proof fn lemma_modifiers_cancel_out()
    ensures
        resolved_semitone(true, false) == Semitone::FLAT,
        resolved_semitone(false, true) == Semitone::SHARP,
        resolved_semitone(true, true) == Semitone::NONE,
        resolved_semitone(false, false) == Semitone::NONE,
        resolved_octave(true, false) == Octave::DOWN,
        resolved_octave(false, true) == Octave::UP,
        resolved_octave(true, true) == Octave::NONE,
        resolved_octave(false, false) == Octave::NONE,
{
}

/// A tick triggers at most one voice per melody button, and none where no
/// melody button was pressed.
pub proof fn lemma_fired_bounds(reports: Reports)
    ensures
        fired(reports).len() <= 8,
        (forall|i: int| 0 <= i < 8 ==> !reports.pressed((#[trigger] NOTE_MAP@[i]).0)) ==> fired(
            reports,
        ).len() == 0,
{
    let f = |entry: (Button, Note)| voice_of(reports, entry);
    lemma_filter_map_len(NOTE_MAP@, f);
    if forall|i: int| 0 <= i < 8 ==> !reports.pressed((#[trigger] NOTE_MAP@[i]).0) {
        lemma_filter_map_none(NOTE_MAP@, f);
    }
}

proof fn lemma_filter_map_len<A, B>(s: Seq<A>, f: spec_fn(A) -> Option<B>)
    ensures
        s.filter_map(f).len() <= s.len(),
    decreases s.len(),
{
    if s.len() > 0 {
        lemma_filter_map_len(s.drop_last(), f);
    }
}

proof fn lemma_filter_map_none<A, B>(s: Seq<A>, f: spec_fn(A) -> Option<B>)
    requires
        forall|i: int| 0 <= i < s.len() ==> f(#[trigger] s[i]) is None,
    ensures
        s.filter_map(f).len() == 0,
    decreases s.len(),
{
    if s.len() > 0 {
        lemma_filter_map_none(s.drop_last(), f);
    }
}

/// The pipeline's state: the controller, the voice bank and the modifiers
/// as the last tick resolved them.
pub struct Player {
    /// The controller.
    pub gamepad: Gamepad,
    /// The voice bank.
    pub audio: Audio,
    /// The semitone shift as the last tick resolved it.
    pub semitone: Semitone,
    /// The octave shift as the last tick resolved it.
    pub octave: Octave,
    /// The flat button was held at the last tick.
    pub semitone_flat: bool,
    /// The sharp button was held at the last tick.
    pub semitone_sharp: bool,
    /// The octave-down button was held at the last tick.
    pub octave_down: bool,
    /// The octave-up button was held at the last tick.
    pub octave_up: bool,
}

impl Player {
    /// A player with a fresh controller, a full voice bank and no modifier
    /// in force. `device_found` tells whether a physical device was found.
    pub fn new(device_found: bool) -> (player: Player)
        ensures
            player.gamepad@.connected == device_found,
            player.gamepad@.reports == Reports::blank(),
            player.audio.bank() == full_bank(),
            player.semitone == Semitone::NONE,
            player.octave == Octave::NONE,
            !player.semitone_flat && !player.semitone_sharp,
            !player.octave_down && !player.octave_up,
    {
        let gamepad = Gamepad::new(device_found);
        let audio = Audio::new();
        Player {
            gamepad,
            audio,
            semitone: Semitone::NONE,
            octave: Octave::NONE,
            semitone_flat: false,
            semitone_sharp: false,
            octave_down: false,
            octave_up: false,
        }
    }

    fn _update_semitone(&mut self)
        ensures
            final(self).semitone_flat == old(self).gamepad@.reports.pushed(Button::LB),
            final(self).semitone_sharp == old(self).gamepad@.reports.pushed(Button::RB),
            final(self).semitone == semitone_of(old(self).gamepad@.reports),
            final(self).gamepad == old(self).gamepad,
            final(self).audio == old(self).audio,
            final(self).octave == old(self).octave,
            final(self).octave_down == old(self).octave_down,
            final(self).octave_up == old(self).octave_up,
    {
        self.semitone_flat = self.gamepad.is_pushed(&Button::LB);
        self.semitone_sharp = self.gamepad.is_pushed(&Button::RB);
        self.semitone = if self.semitone_flat && !self.semitone_sharp {
            Semitone::FLAT
        } else if !self.semitone_flat && self.semitone_sharp {
            Semitone::SHARP
        } else {
            Semitone::NONE
        };
    }

    fn _update_octave(&mut self)
        ensures
            final(self).octave_down == old(self).gamepad@.reports.pushed(Button::LT),
            final(self).octave_up == old(self).gamepad@.reports.pushed(Button::RT),
            final(self).octave == octave_of(old(self).gamepad@.reports),
            final(self).gamepad == old(self).gamepad,
            final(self).audio == old(self).audio,
            final(self).semitone == old(self).semitone,
            final(self).semitone_flat == old(self).semitone_flat,
            final(self).semitone_sharp == old(self).semitone_sharp,
    {
        self.octave_down = self.gamepad.is_pushed(&Button::LT);
        self.octave_up = self.gamepad.is_pushed(&Button::RT);
        self.octave = if self.octave_down && !self.octave_up {
            Octave::DOWN
        } else if !self.octave_down && self.octave_up {
            Octave::UP
        } else {
            Octave::NONE
        };
    }

    /// One tick. Takes in the outcome of the device read, resolves the two
    /// modifiers from the buttons held in the current report, and returns
    /// the voices to hand to the mixer: one for each melody button that went
    /// down between the two reports.
    pub fn update(&mut self, report: Option<&[u8]>) -> (triggered: Vec<Sample>)
        ensures
            final(self).gamepad@ == old(self).gamepad@.after_read(delivered(report)),
            final(self).audio == old(self).audio,
            final(self).semitone_flat == final(self).gamepad@.reports.pushed(Button::LB),
            final(self).semitone_sharp == final(self).gamepad@.reports.pushed(Button::RB),
            final(self).octave_down == final(self).gamepad@.reports.pushed(Button::LT),
            final(self).octave_up == final(self).gamepad@.reports.pushed(Button::RT),
            final(self).semitone == semitone_of(final(self).gamepad@.reports),
            final(self).octave == octave_of(final(self).gamepad@.reports),
            triggered@ == fired(final(self).gamepad@.reports),
    {
        self.gamepad.read(report);
        self._update_semitone();
        self._update_octave();

        let ghost reports = self.gamepad@.reports;
        let ghost voice = |entry: (Button, Note)| voice_of(reports, entry);
        let mut triggered: Vec<Sample> = Vec::new();
        for i in 0..NOTE_MAP.len()
            invariant
                NOTE_MAP@.len() == 8,
                reports == self.gamepad@.reports,
                self.audio == old(self).audio,
                self.semitone_flat == reports.pushed(Button::LB),
                self.semitone_sharp == reports.pushed(Button::RB),
                self.octave_down == reports.pushed(Button::LT),
                self.octave_up == reports.pushed(Button::RT),
                self.semitone == semitone_of(reports),
                self.octave == octave_of(reports),
                voice == |entry: (Button, Note)| voice_of(reports, entry),
                triggered@ == NOTE_MAP@.take(i as int).filter_map(voice),
        {
            let (button, note) = NOTE_MAP[i];
            proof {
                let seen = NOTE_MAP@.take(i + 1);
                assert(seen.drop_last() == NOTE_MAP@.take(i as int));
                assert(seen.last() == (button, note));
            }
            if self.gamepad.is_pressed(&button) {
                let sample = self.audio.play(note, self.semitone, self.octave);
                triggered.push(sample);
            }
        }
        assert(NOTE_MAP@.take(8) == NOTE_MAP@);
        triggered
    }
}

} // verus!
