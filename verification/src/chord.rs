use vstd::prelude::*;
use crate::note::{Note, PitchClass, pitch_offset, spec_pitch_class_of, pitch_class_offset,
    note_from_parts};
use rust_music_theory::chord::{Chord as TheoryChord, Number as TheoryNumber,
    Quality as TheoryQuality};
use rust_music_theory::note::{Notes, PitchClass as TheoryPitchClass};

verus! {

/// The chord qualities the progression draws on.
#[derive(Clone, Copy, PartialEq, Eq, Structural, Debug)]
pub enum Quality {
    Major,
    Minor,
    Diminished,
}

/// A seventh chord: a root pitch class and a quality. The progression uses
/// seventh chords only, so the extension is not carried around.
#[derive(Clone, Copy, PartialEq, Eq, Structural, Debug)]
pub struct Chord {
    pub root: PitchClass,
    pub quality: Quality,
}

/// The semitone steps between consecutive notes of a seventh chord of the
/// given quality.
pub open spec fn quality_steps(q: Quality) -> Seq<int> {
    match q {
        Quality::Major => seq![4int, 3int, 4int],
        Quality::Minor => seq![3int, 4int, 3int],
        Quality::Diminished => seq![3int, 3int, 3int],
    }
}

/// The note at a given absolute semitone number: the pitch class is the
/// remainder modulo twelve and the octave the quotient.
pub open spec fn note_of_number(k: int) -> Note {
    Note { pitch_class: spec_pitch_class_of(k % 12), octave: (k / 12) as u8 }
}

/// The four notes of a seventh chord, lowest first: the root in octave 4,
/// then each following note one quality step above the previous one.
pub open spec fn seventh_chord_notes(c: Chord) -> Seq<Note> {
    let n0 = pitch_offset(c.root) + 48;
    let s = quality_steps(c.quality);
    seq![
        note_of_number(n0),
        note_of_number(n0 + s[0]),
        note_of_number(n0 + s[0] + s[1]),
        note_of_number(n0 + s[0] + s[1] + s[2]),
    ]
}

/// Relies on rust_music_theory's `Chord::new` and `Notes::notes`: a seventh
/// chord is rooted at octave 4 and each following note lies the quality's
/// next semitone step (major 4-3-4, minor 3-4-3, diminished 3-3-3) above the
/// previous one, the pitch class wrapping at twelve and the octave rising by
/// one at each wrap.
#[verifier::external_body]
fn seventh_chord_notes_raw(chord: &Chord) -> (r: Vec<Note>)
    ensures
        r@ == seventh_chord_notes(*chord),
{
    let root = TheoryPitchClass::from_u8(pitch_class_offset(chord.root));
    let quality = match chord.quality {
        Quality::Major => TheoryQuality::Major,
        Quality::Minor => TheoryQuality::Minor,
        Quality::Diminished => TheoryQuality::Diminished,
    };
    let notes = TheoryChord::new(root, quality, TheoryNumber::Seventh).notes();
    notes.iter().map(|n| note_from_parts(n.pitch_class.into_u8(), n.octave)).collect()
}

impl Chord {
    /// The chord's notes, lowest first, rooted in octave 4.
    pub fn notes(&self) -> (r: Vec<Note>)
        ensures
            r@ == seventh_chord_notes(*self),
    {
        seventh_chord_notes_raw(self)
    }
}

/// The chord active after a given number of elapsed periods: a fixed loop of
/// four seventh chords, one per period.
pub open spec fn spec_active_chord(count: int) -> Chord {
    let i = count % 4;
    if i == 0 {
        Chord { root: PitchClass::A, quality: Quality::Diminished }
    } else if i == 1 {
        Chord { root: PitchClass::C, quality: Quality::Major }
    } else if i == 2 {
        Chord { root: PitchClass::E, quality: Quality::Minor }
    } else {
        Chord { root: PitchClass::G, quality: Quality::Major }
    }
}

/// Selects the chord for the current elapsed-period count.
pub fn active_chord(sample_count: usize) -> (r: Chord)
    ensures
        r == spec_active_chord(sample_count as int),
{
    let i = sample_count % 4;
    if i == 0 {
        Chord { root: PitchClass::A, quality: Quality::Diminished }
    } else if i == 1 {
        Chord { root: PitchClass::C, quality: Quality::Major }
    } else if i == 2 {
        Chord { root: PitchClass::E, quality: Quality::Minor }
    } else {
        Chord { root: PitchClass::G, quality: Quality::Major }
    }
}

/// The chord loop is periodic: four periods later the same chord is active.
pub proof fn lemma_chord_cycle_period(count: int)
    requires
        0 <= count,
    ensures
        spec_active_chord(count + 4) == spec_active_chord(count),
{
    assert((count + 4) % 4 == count % 4) by (nonlinear_arith);
}

} // verus!
