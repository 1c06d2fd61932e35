use music::chord::{active_chord, Chord, Quality};
use music::clock::SampleRequestOptions;
use music::driver::frame_notes;
use music::note::{note_number, semitones_from_a4, Note, PitchClass};

fn note(pitch_class: PitchClass, octave: u8) -> Note {
    Note { pitch_class, octave }
}

fn frequency_of(n: &Note) -> f32 {
    2f32.powf(semitones_from_a4(n) as f32 / 12.0) * 440.0
}

#[test]
fn clock_wraps_after_one_period() {
    let mut o = SampleRequestOptions::new(48000, 2);
    for _ in 0..48000 {
        o.tick();
    }
    assert_eq!(o.sample_clock, 0);
    assert_eq!(o.sample_count, 1);
    o.tick();
    assert_eq!(o.sample_clock, 1);
    assert_eq!(o.sample_count, 1);
}

#[test]
fn clock_period_counter_wraps_at_integer_width() {
    let mut o = SampleRequestOptions {
        sample_rate: 1,
        sample_clock: 0,
        nchannels: 1,
        sample_count: usize::MAX,
    };
    o.tick();
    assert_eq!(o.sample_clock, 0);
    assert_eq!(o.sample_count, 0);
}

#[test]
fn chord_cycle_matches_table_over_three_cycles() {
    let table = [
        Chord { root: PitchClass::A, quality: Quality::Diminished },
        Chord { root: PitchClass::C, quality: Quality::Major },
        Chord { root: PitchClass::E, quality: Quality::Minor },
        Chord { root: PitchClass::G, quality: Quality::Major },
    ];
    for count in 0..12 {
        assert_eq!(active_chord(count), table[count % 4]);
    }
}

#[test]
fn seventh_chords_expand_from_octave_four() {
    let a_dim = Chord { root: PitchClass::A, quality: Quality::Diminished };
    assert_eq!(
        a_dim.notes(),
        vec![
            note(PitchClass::A, 4),
            note(PitchClass::C, 5),
            note(PitchClass::Ds, 5),
            note(PitchClass::Fs, 5),
        ]
    );
    let c_maj = Chord { root: PitchClass::C, quality: Quality::Major };
    assert_eq!(
        c_maj.notes(),
        vec![
            note(PitchClass::C, 4),
            note(PitchClass::E, 4),
            note(PitchClass::G, 4),
            note(PitchClass::B, 4),
        ]
    );
    let e_min = Chord { root: PitchClass::E, quality: Quality::Minor };
    assert_eq!(
        e_min.notes(),
        vec![
            note(PitchClass::E, 4),
            note(PitchClass::G, 4),
            note(PitchClass::B, 4),
            note(PitchClass::D, 5),
        ]
    );
    let g_maj = Chord { root: PitchClass::G, quality: Quality::Major };
    assert_eq!(
        g_maj.notes(),
        vec![
            note(PitchClass::G, 4),
            note(PitchClass::B, 4),
            note(PitchClass::D, 5),
            note(PitchClass::Fs, 5),
        ]
    );
}

#[test]
fn a4_is_the_440_hz_anchor() {
    let a4 = note(PitchClass::A, 4);
    assert_eq!(note_number(&a4), 57);
    assert_eq!(semitones_from_a4(&a4), 0);
    assert_eq!(frequency_of(&a4), 440.0);
}

#[test]
fn semitone_distances_from_a4() {
    assert_eq!(semitones_from_a4(&note(PitchClass::C, 4)), -9);
    assert_eq!(semitones_from_a4(&note(PitchClass::A, 5)), 12);
    assert_eq!(semitones_from_a4(&note(PitchClass::C, 0)), -57);
    assert_eq!(note_number(&note(PitchClass::C, 0)), 0);
    assert_eq!(note_number(&note(PitchClass::B, 20)), 251);
}

#[test]
fn octave_up_doubles_frequency() {
    let cases = [
        (PitchClass::C, 0u8),
        (PitchClass::E, 3),
        (PitchClass::A, 4),
        (PitchClass::Fs, 7),
        (PitchClass::B, 10),
    ];
    for (pitch_class, octave) in cases {
        let low = frequency_of(&note(pitch_class, octave));
        let high = frequency_of(&note(pitch_class, octave + 1));
        assert!((high - 2.0 * low).abs() <= 1e-3 * low.max(1.0));
    }
}

#[test]
fn first_frame_mixes_a_diminished_seventh_at_time_zero() {
    let mut o = SampleRequestOptions::new(44100, 2);
    let notes = frame_notes(&o);
    assert_eq!(
        notes,
        vec![
            note(PitchClass::A, 4),
            note(PitchClass::C, 5),
            note(PitchClass::Ds, 5),
            note(PitchClass::Fs, 5),
        ]
    );
    let time = o.sample_clock as f32;
    let mut value = 0.0f32;
    for n in &notes {
        value += (time * frequency_of(n) * std::f32::consts::PI * 2.0).sin() * 0.1;
    }
    let mut frame = [7.0f32; 2];
    for slot in frame.iter_mut() {
        *slot = value;
    }
    assert_eq!(frame[0], frame[1]);
    assert_eq!(value, 0.0);
    o.tick();
    assert_eq!(o.sample_clock, 1);
    assert_eq!(o.sample_count, 0);
}
