use tuning_systems::fraction::Fraction;
use tuning_systems::tone::Tone;
use tuning_systems::tuning::{get_fraction, TuningSystem};

const CN1: f64 = 261.6256 / 32.0;

fn ratio(f: &Fraction) -> f64 {
    f.numerator as f64 / f.denominator as f64 * 2f64.powf(f.base as f64 / f.divisions as f64)
}

fn frequency(tone: &Tone) -> f64 {
    ratio(&tone.fraction()) * CN1
}

fn construct_et_tone(index: u32) -> Tone {
    Tone::new(TuningSystem::EqualTemperament, index as usize)
}

#[test]
fn test_octave() {
    let twoone = Fraction::new(2, 1).unwrap();
    let ratio = get_fraction(TuningSystem::JustIntonation, 12);
    assert_eq!(ratio, twoone);
    let ratio = get_fraction(TuningSystem::JustIntonation24, 24);
    assert_eq!(ratio, twoone);
    let ratio = get_fraction(TuningSystem::EqualTemperament, 12);
    assert_eq!(ratio, twoone);
}

#[test]
fn test_et() {
    let zero = construct_et_tone(0);

    assert_eq!(zero.name(), "CN1");
    assert_eq!(zero.octave(), 0);
    assert_eq!(frequency(&zero), 8.1758);

    let sixty_nine = construct_et_tone(69);
    assert_eq!(sixty_nine.name(), "A4");
    assert_eq!(sixty_nine.octave(), 5);
    assert!((frequency(&sixty_nine) - 440.0).abs() < 0.0001);
}
