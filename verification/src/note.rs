use vstd::prelude::*;

verus! {

/// One of the twelve semitone categories of an octave, independent of octave.
#[derive(Clone, Copy, PartialEq, Eq, Structural, Debug)]
pub enum PitchClass {
    C,
    Cs,
    D,
    Ds,
    E,
    F,
    Fs,
    G,
    Gs,
    A,
    As,
    B,
}

/// A symbolic musical note: a pitch class together with its octave.
#[derive(Clone, Copy, PartialEq, Eq, Structural, Debug)]
pub struct Note {
    pub pitch_class: PitchClass,
    pub octave: u8,
}

/// The semitone offset of a pitch class within its octave, C being 0.
pub open spec fn pitch_offset(pc: PitchClass) -> int {
    match pc {
        PitchClass::C => 0,
        PitchClass::Cs => 1,
        PitchClass::D => 2,
        PitchClass::Ds => 3,
        PitchClass::E => 4,
        PitchClass::F => 5,
        PitchClass::Fs => 6,
        PitchClass::G => 7,
        PitchClass::Gs => 8,
        PitchClass::A => 9,
        PitchClass::As => 10,
        PitchClass::B => 11,
    }
}

/// The absolute semitone number of a note: its pitch-class offset plus
/// twelve semitones for every octave.
pub open spec fn spec_note_number(n: Note) -> int {
    pitch_offset(n.pitch_class) + 12 * (n.octave as int)
}

/// The absolute semitone number of the reference note A4.
pub open spec fn a4_number() -> int {
    spec_note_number(Note { pitch_class: PitchClass::A, octave: 4 })
}

/// The pitch class sitting at a given semitone offset within the octave,
/// C being 0. Offsets outside 0..12 give B, a value the callers rule out.
pub open spec fn spec_pitch_class_of(v: int) -> PitchClass {
    if v == 0 {
        PitchClass::C
    } else if v == 1 {
        PitchClass::Cs
    } else if v == 2 {
        PitchClass::D
    } else if v == 3 {
        PitchClass::Ds
    } else if v == 4 {
        PitchClass::E
    } else if v == 5 {
        PitchClass::F
    } else if v == 6 {
        PitchClass::Fs
    } else if v == 7 {
        PitchClass::G
    } else if v == 8 {
        PitchClass::Gs
    } else if v == 9 {
        PitchClass::A
    } else if v == 10 {
        PitchClass::As
    } else {
        PitchClass::B
    }
}

/// The executable pitch class at a given semitone offset within the octave.
pub fn pitch_class_of(v: u8) -> (r: PitchClass)
    requires
        v < 12,
    ensures
        r == spec_pitch_class_of(v as int),
        pitch_offset(r) == v as int,
{
    match v {
        0 => PitchClass::C,
        1 => PitchClass::Cs,
        2 => PitchClass::D,
        3 => PitchClass::Ds,
        4 => PitchClass::E,
        5 => PitchClass::F,
        6 => PitchClass::Fs,
        7 => PitchClass::G,
        8 => PitchClass::Gs,
        9 => PitchClass::A,
        10 => PitchClass::As,
        _ => PitchClass::B,
    }
}

/// Builds a note from its pitch-class offset within the octave and its octave.
pub fn note_from_parts(pitch: u8, octave: u8) -> (r: Note)
    requires
        pitch < 12,
    ensures
        r.pitch_class == spec_pitch_class_of(pitch as int),
        r.octave == octave,
{
    Note { pitch_class: pitch_class_of(pitch), octave }
}

/// The executable semitone offset of a pitch class.
pub fn pitch_class_offset(pc: PitchClass) -> (r: u8)
    ensures
        r as int == pitch_offset(pc),
{
    match pc {
        PitchClass::C => 0,
        PitchClass::Cs => 1,
        PitchClass::D => 2,
        PitchClass::Ds => 3,
        PitchClass::E => 4,
        PitchClass::F => 5,
        PitchClass::Fs => 6,
        PitchClass::G => 7,
        PitchClass::Gs => 8,
        PitchClass::A => 9,
        PitchClass::As => 10,
        PitchClass::B => 11,
    }
}

/// The absolute semitone number of a note, for notes low enough that the
/// number fits the byte the callers carry it in.
pub fn note_number(note: &Note) -> (r: u8)
    requires
        spec_note_number(*note) <= u8::MAX,
    ensures
        r as int == spec_note_number(*note),
{
    let pitch_class = pitch_class_offset(note.pitch_class);
    let octave = note.octave;
    pitch_class + 12 * octave
}

/// The note's distance from the tuning reference A4, in semitones.
/// In twelve-tone equal temperament the note's frequency is
/// 440 Hz times the twelfth root of two raised to this number.
pub fn semitones_from_a4(note: &Note) -> (r: i16)
    ensures
        r as int == spec_note_number(*note) - a4_number(),
{
    let pitch_class = pitch_class_offset(note.pitch_class) as i16;
    let octave = note.octave as i16;
    pitch_class + 12 * octave - 57
}

/// Raising a note by one octave raises its absolute semitone number by
/// exactly twelve; under equal temperament that doubles its frequency.
pub proof fn lemma_octave_up_adds_twelve(pc: PitchClass, octave: u8)
    requires
        octave < u8::MAX,
    ensures
        spec_note_number(Note { pitch_class: pc, octave: (octave + 1) as u8 })
            == spec_note_number(Note { pitch_class: pc, octave }) + 12,
{
}

/// The reference note A4 sits at semitone distance zero from itself, so the
/// equal-temperament formula gives it exactly 440 Hz.
pub proof fn lemma_a4_is_anchor()
    ensures
        spec_note_number(Note { pitch_class: PitchClass::A, octave: 4 }) - a4_number() == 0,
        a4_number() == 57,
{
}

} // verus!
