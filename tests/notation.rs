use tuning_systems::notation::{convert_note, convert_notes};
use tuning_systems::tone::Tone;
use tuning_systems::tuning::TuningSystem;

#[test]
fn note_in_reference_octave_has_no_marks() {
    assert_eq!(convert_note("C4"), "C");
    assert_eq!(convert_note("A4"), "A");
}

#[test]
fn sharps_and_flats() {
    assert_eq!(convert_note("C#5"), "^C'");
    assert_eq!(convert_note("Bb3"), "_B,");
    assert_eq!(convert_note("F#b#2"), "^_^F,,");
}

#[test]
fn low_and_high_octaves() {
    assert_eq!(convert_note("CN1"), "C,,,,,,");
    assert_eq!(convert_note("A0"), "A,,,,");
    assert_eq!(convert_note("G10"), "G''''''");
    assert_eq!(convert_note("D04"), "D");
}

#[test]
fn text_without_a_note_is_kept() {
    assert_eq!(convert_note("xyz"), "xyz");
    assert_eq!(convert_note(""), "");
    assert_eq!(convert_note("C+4"), "C+4");
    assert_eq!(convert_note("H4"), "H4");
}

#[test]
fn first_note_in_text_is_taken() {
    assert_eq!(convert_note("hello D#2 world E5"), "^D,,");
    assert_eq!(convert_note("CxE6"), "E''");
}

#[test]
fn octave_past_the_largest_is_kept() {
    assert_eq!(convert_note("C99999999999"), "C99999999999");
    assert_eq!(convert_note("C2147483648"), "C2147483648");
}

#[test]
fn chord_in_abc() {
    let notes = vec!["C4".to_string(), "E4".to_string(), "G4".to_string()];
    assert_eq!(convert_notes(&notes), "L: 1/1 \n[CEG]");
    assert_eq!(convert_notes(&Vec::new()), "L: 1/1 \n[]");
}

#[test]
fn tone_names_convert() {
    let et = TuningSystem::EqualTemperament;
    let names: Vec<String> = [0usize, 61, 70].iter().map(|&i| Tone::new(et, i).name).collect();
    assert_eq!(convert_notes(&names), "L: 1/1 \n[C,,,,,,^C^A]");
}
