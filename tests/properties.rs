use tuning_systems::error::TuningError;
use tuning_systems::fraction::Fraction;
use tuning_systems::chromatic::{self, Config, OCTAVE_SIZE};
use tuning_systems::tone::Tone;
use tuning_systems::tuning::{equal_temperament, get_fraction, TuningSystem};

const CN1: f64 = 261.6256 / 32.0;
const ALL: [TuningSystem; 3] = [
    TuningSystem::EqualTemperament,
    TuningSystem::JustIntonation,
    TuningSystem::JustIntonation24,
];

fn ratio(f: &Fraction) -> f64 {
    f.numerator as f64 / f.denominator as f64 * 2f64.powf(f.base as f64 / f.divisions as f64)
}

fn cents(tone: &Tone) -> f64 {
    let size = tone.tuning_system().size() as u32;
    let reference = ratio(&equal_temperament(tone.tone_index(), size));
    1200f64 * (ratio(&tone.fraction()) / reference).log2()
}

#[test]
fn parse_reads_back_every_identifier() {
    for system in ALL {
        assert_eq!(TuningSystem::parse(&system.to_string()), Ok(system));
    }
    assert_eq!("JustIntonation".parse::<TuningSystem>(), Ok(TuningSystem::JustIntonation));
    assert_eq!(TuningSystem::EqualTemperament.to_string(), "EqualTemperament");
    assert_eq!(TuningSystem::JustIntonation24.to_string(), "JustIntonation24");
}

#[test]
fn parse_refuses_unknown_identifiers() {
    for text in ["", "equaltemperament", "JustIntonation2", "Just", "JustIntonation24 "] {
        assert_eq!(TuningSystem::parse(text), Err(TuningError::UnknownTuningSystem));
    }
}

#[test]
fn sizes() {
    assert_eq!(TuningSystem::EqualTemperament.size(), 12);
    assert_eq!(TuningSystem::JustIntonation.size(), 12);
    assert_eq!(TuningSystem::JustIntonation24.size(), 24);
}

#[test]
fn octave_boundaries_are_powers_of_two() {
    for system in ALL {
        for k in 0..=8u32 {
            let f = get_fraction(system, k as usize * system.size());
            assert_eq!(f.numerator, f.denominator);
            assert_eq!(ratio(&f), 2f64.powi(k as i32));
            assert_eq!(f, Fraction::new(1u32 << k, 1).unwrap());
        }
    }
}

#[test]
fn reference_tone_frequency() {
    let tone = Tone::new(TuningSystem::EqualTemperament, 0);
    assert!((ratio(&tone.fraction()) * CN1 - 8.1758).abs() < 1e-4);
}

#[test]
fn concert_pitch() {
    let tone = Tone::new(TuningSystem::EqualTemperament, 69);
    assert!((ratio(&tone.fraction()) * CN1 - 440.0).abs() < 1e-4);
    assert_eq!(tone.name(), "A4");
}

#[test]
fn equal_temperament_has_no_deviation() {
    for index in 0..200usize {
        let tone = Tone::new(TuningSystem::EqualTemperament, index);
        assert!(cents(&tone).abs() < 1e-6);
    }
}

#[test]
fn just_major_third_deviation() {
    let tone = Tone::new(TuningSystem::JustIntonation, 64);
    assert_eq!(tone.fraction(), Fraction::new(40, 1).unwrap());
    assert!((cents(&tone) + 13.69).abs() < 1e-2);
}

#[test]
fn octave_rises_once_per_octave() {
    for system in ALL {
        let size = system.size();
        let mut last = 0;
        for index in 0..300usize {
            let tone = Tone::new(system, index);
            assert!(tone.octave() >= last);
            last = tone.octave();
            assert_eq!(Tone::new(system, index + size).octave(), tone.octave() + 1);
        }
    }
}

#[test]
fn names() {
    let et = TuningSystem::EqualTemperament;
    assert_eq!(Tone::new(et, 11).name(), "BN1");
    assert_eq!(Tone::new(et, 12).name(), "C0");
    assert_eq!(Tone::new(et, 61).name(), "C#4");
    assert_eq!(Tone::new(et, 1211).name(), "B99");
    assert_eq!(Tone::new(et, 1212).name(), "C100");
    let quarter = TuningSystem::JustIntonation24;
    assert_eq!(Tone::new(quarter, 1).name(), "C+N1");
    assert_eq!(Tone::new(quarter, 24 * 5 + 18).name(), "A4");
    assert_eq!(Tone::new(quarter, 24 * 5 + 23).name(), "B+4");
}

#[test]
fn just_ratios() {
    assert_eq!(get_fraction(TuningSystem::JustIntonation, 7), Fraction::new(3, 2).unwrap());
    assert_eq!(get_fraction(TuningSystem::JustIntonation24, 14), Fraction::new(3, 2).unwrap());
    assert_eq!(get_fraction(TuningSystem::JustIntonation24, 25), Fraction::new(33, 16).unwrap());
    assert_ne!(get_fraction(TuningSystem::JustIntonation, 7), Fraction::new(4, 3).unwrap());
}

#[test]
fn fraction_rejects_zero_denominator() {
    assert_eq!(Fraction::new(3, 0), Err(TuningError::InvalidFraction));
}

#[test]
fn fraction_equality_is_by_value() {
    let half = Fraction::new(1, 2).unwrap();
    assert_eq!(half, Fraction::new(2, 4).unwrap());
    assert_eq!(Fraction::new(1, 1).unwrap(), Fraction { numerator: 1, denominator: 2, base: 1, divisions: 1 });
    assert_eq!(equal_temperament(24, 12), Fraction::new(4, 1).unwrap());
    assert_eq!(equal_temperament(6, 12), equal_temperament(12, 24));
    assert_ne!(equal_temperament(6, 12), Fraction::new(1, 1).unwrap());
    assert_eq!(Fraction::new(0, 3).unwrap(), Fraction::new(0, 7).unwrap());
    assert_ne!(Fraction::new(0, 3).unwrap(), Fraction::new(1, 7).unwrap());
}

#[test]
fn chromatic_tone() {
    let tone = chromatic::Tone::new(Fraction::new(3, 2).unwrap(), 31);
    assert_eq!(tone.name(), "G1");
    assert_eq!(tone.octave(), 2);
    assert_eq!(tone.octave_size(), OCTAVE_SIZE);
    assert_eq!(tone.tone_index(), 31);
    assert_eq!(tone.fraction(), Fraction::new(6, 1).unwrap());
    let low = chromatic::Tone::new_with_octave_size(Fraction::new(1, 1).unwrap(), 24, 13);
    assert_eq!(low.name(), "C#N1");
    assert_eq!(low.octave(), 0);
    let folded = Fraction { numerator: 1, denominator: 1, base: 1, divisions: 1 };
    let kept = chromatic::Tone::new_with_octave_size(folded, 12, 12);
    assert_eq!(kept.fraction().base, 1);
    assert_eq!(kept.fraction(), Fraction::new(2, 1).unwrap());
    let raised = chromatic::Tone::new_with_octave_size(Fraction::new(1, 1).unwrap(), 12, 12);
    assert_eq!(raised.fraction(), Fraction::new(2, 1).unwrap());
    let just = chromatic::Tone::new(get_fraction(TuningSystem::JustIntonation, 16), 16);
    assert_eq!(just.fraction(), Fraction::new(5, 2).unwrap());
    assert_eq!(chromatic::Tone::new(Fraction::new(3, 2).unwrap(), 31), tone);
    let stepped = chromatic::Tone::new(equal_temperament(30, 12), 30);
    assert_eq!(stepped.fraction(), equal_temperament(30, 12));
}

#[test]
fn config_setters() {
    let mut config = Config::new();
    assert_eq!(config.octave_size, 12);
    config.set_octave_size(24);
    config.set_step_size(2);
    assert_eq!(config, Config { octave_size: 24, step_size: 2 });
}
