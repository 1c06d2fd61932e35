use vstd::prelude::*;
use crate::chord::{active_chord, seventh_chord_notes, spec_active_chord};
use crate::clock::SampleRequestOptions;
use crate::note::Note;

verus! {

/// The notes sounding in the frame about to be generated: the chord that the
/// elapsed-period count selects, expanded into its four notes, lowest first.
pub fn frame_notes(o: &SampleRequestOptions) -> (r: Vec<Note>)
    ensures
        r@ == seventh_chord_notes(spec_active_chord(o.sample_count as int)),
        r@.len() == 4,
{
    let chord = active_chord(o.sample_count);
    chord.notes()
}

} // verus!
