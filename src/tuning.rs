use vstd::prelude::*;
use vstd::string::*;
use crate::error::TuningError;
use crate::fraction::Fraction;
use crate::text::{str_equal, append_decimal, decimal};

verus! {

/// A tuning scheme: how many steps make an octave, what each step is called,
/// and the ratio of each step to the reference tone.
#[derive(Clone, Copy, Debug, PartialEq, Eq, Structural)]
pub enum TuningSystem {
    /// Twelve equal steps per octave, each the twelfth root of two.
    EqualTemperament,
    /// Twelve steps per octave tuned to small-integer ratios.
    JustIntonation,
    /// Twenty-four steps per octave tuned to small-integer ratios (quarter tones).
    JustIntonation24,
}

/// The names of the twelve chromatic steps.
pub open spec fn twelve_tone_name(step: nat) -> Seq<char> {
    if step == 0 {
        "C"@
    } else if step == 1 {
        "C#"@
    } else if step == 2 {
        "D"@
    } else if step == 3 {
        "D#"@
    } else if step == 4 {
        "E"@
    } else if step == 5 {
        "F"@
    } else if step == 6 {
        "F#"@
    } else if step == 7 {
        "G"@
    } else if step == 8 {
        "G#"@
    } else if step == 9 {
        "A"@
    } else if step == 10 {
        "A#"@
    } else {
        "B"@
    }
}

/// The names of the twenty-four quarter-tone steps.
pub open spec fn twenty_four_tone_name(step: nat) -> Seq<char> {
    if step == 0 {
        "C"@
    } else if step == 1 {
        "C+"@
    } else if step == 2 {
        "C#"@
    } else if step == 3 {
        "C#+"@
    } else if step == 4 {
        "D"@
    } else if step == 5 {
        "D+"@
    } else if step == 6 {
        "D#"@
    } else if step == 7 {
        "D#+"@
    } else if step == 8 {
        "E"@
    } else if step == 9 {
        "E+"@
    } else if step == 10 {
        "F"@
    } else if step == 11 {
        "F+"@
    } else if step == 12 {
        "F#"@
    } else if step == 13 {
        "F#+"@
    } else if step == 14 {
        "G"@
    } else if step == 15 {
        "G+"@
    } else if step == 16 {
        "G#"@
    } else if step == 17 {
        "G#+"@
    } else if step == 18 {
        "A"@
    } else if step == 19 {
        "A+"@
    } else if step == 20 {
        "A#"@
    } else if step == 21 {
        "A#+"@
    } else if step == 22 {
        "B"@
    } else {
        "B+"@
    }
}

/// Twelve-step just intonation, as `(numerator, denominator)` of each step.
pub open spec fn just_ratio(step: nat) -> (nat, nat) {
    if step == 0 {
        (1, 1)
    } else if step == 1 {
        (16, 15)
    } else if step == 2 {
        (9, 8)
    } else if step == 3 {
        (6, 5)
    } else if step == 4 {
        (5, 4)
    } else if step == 5 {
        (4, 3)
    } else if step == 6 {
        (45, 32)
    } else if step == 7 {
        (3, 2)
    } else if step == 8 {
        (8, 5)
    } else if step == 9 {
        (5, 3)
    } else if step == 10 {
        (9, 5)
    } else {
        (15, 8)
    }
}

/// Twenty-four-step just intonation, as `(numerator, denominator)` of each step.
pub open spec fn just_ratio_24(step: nat) -> (nat, nat) {
    if step == 0 {
        (1, 1)
    } else if step == 1 {
        (33, 32)
    } else if step == 2 {
        (16, 15)
    } else if step == 3 {
        (12, 11)
    } else if step == 4 {
        (9, 8)
    } else if step == 5 {
        (8, 7)
    } else if step == 6 {
        (6, 5)
    } else if step == 7 {
        (11, 9)
    } else if step == 8 {
        (5, 4)
    } else if step == 9 {
        (9, 7)
    } else if step == 10 {
        (4, 3)
    } else if step == 11 {
        (11, 8)
    } else if step == 12 {
        (45, 32)
    } else if step == 13 {
        (16, 11)
    } else if step == 14 {
        (3, 2)
    } else if step == 15 {
        (14, 9)
    } else if step == 16 {
        (8, 5)
    } else if step == 17 {
        (18, 11)
    } else if step == 18 {
        (5, 3)
    } else if step == 19 {
        (12, 7)
    } else if step == 20 {
        (9, 5)
    } else if step == 21 {
        (11, 6)
    } else if step == 22 {
        (15, 8)
    } else {
        (64, 33)
    }
}

/// The octave number written after a tone's name: `N` and the magnitude for a
/// negative octave, the plain decimal number otherwise.
pub open spec fn octave_token(octave: int) -> Seq<char> {
    if octave < 0 {
        seq!['N'] + decimal((-octave) as nat)
    } else {
        decimal(octave as nat)
    }
}

/// Which tuning system an identifier names, if any.
pub open spec fn parse_spec(text: Seq<char>) -> Result<TuningSystem, TuningError> {
    if text == TuningSystem::EqualTemperament.identifier() {
        Ok(TuningSystem::EqualTemperament)
    } else if text == TuningSystem::JustIntonation.identifier() {
        Ok(TuningSystem::JustIntonation)
    } else if text == TuningSystem::JustIntonation24.identifier() {
        Ok(TuningSystem::JustIntonation24)
    } else {
        Err(TuningError::UnknownTuningSystem)
    }
}

impl TuningSystem {
    /// Steps per octave.
    pub open spec fn spec_size(self) -> nat {
        match self {
            TuningSystem::EqualTemperament => 12,
            TuningSystem::JustIntonation => 12,
            TuningSystem::JustIntonation24 => 24,
        }
    }

    /// The identifier that names this system.
    pub open spec fn identifier(self) -> Seq<char> {
        match self {
            TuningSystem::EqualTemperament => "EqualTemperament"@,
            TuningSystem::JustIntonation => "JustIntonation"@,
            TuningSystem::JustIntonation24 => "JustIntonation24"@,
        }
    }

    /// The name of a step within the octave.
    pub open spec fn step_name(self, step: nat) -> Seq<char> {
        match self {
            TuningSystem::JustIntonation24 => twenty_four_tone_name(step),
            _ => twelve_tone_name(step),
        }
    }

    /// The octave a tone index lies in, counting from the reference octave as 0.
    pub open spec fn octave_of(self, tone_index: nat) -> nat {
        tone_index / self.spec_size()
    }

    /// The full name of a tone: its step's name, then the octave counted from
    /// one below the reference octave.
    pub open spec fn tone_name(self, tone_index: nat) -> Seq<char> {
        self.step_name(tone_index % self.spec_size())
            + octave_token(self.octave_of(tone_index) - 1)
    }

    /// The ratio of a tone to the reference tone.
    pub open spec fn fraction(self, tone_index: nat) -> Fraction {
        let step = tone_index % self.spec_size();
        let octave = self.octave_of(tone_index);
        match self {
            TuningSystem::EqualTemperament => Fraction {
                numerator: 1,
                denominator: 1,
                base: tone_index as u64,
                divisions: 12,
            },
            TuningSystem::JustIntonation => Fraction {
                numerator: just_ratio(step).0 as u32,
                denominator: just_ratio(step).1 as u32,
                base: octave as u64,
                divisions: 1,
            },
            TuningSystem::JustIntonation24 => Fraction {
                numerator: just_ratio_24(step).0 as u32,
                denominator: just_ratio_24(step).1 as u32,
                base: octave as u64,
                divisions: 1,
            },
        }
    }

    /// Steps per octave.
    pub fn size(&self) -> (r: usize)
        ensures
            r == self.spec_size(),
    {
        match self {
            TuningSystem::EqualTemperament => 12,
            TuningSystem::JustIntonation => 12,
            TuningSystem::JustIntonation24 => 24,
        }
    }

    /// The identifier that names this system; `parse` reads it back.
    pub fn to_string(&self) -> (r: String)
        ensures
            r@ == self.identifier(),
    {
        match self {
            TuningSystem::EqualTemperament => String::from_str("EqualTemperament"),
            TuningSystem::JustIntonation => String::from_str("JustIntonation"),
            TuningSystem::JustIntonation24 => String::from_str("JustIntonation24"),
        }
    }

    /// The tuning system an identifier names. Identifiers are matched whole
    /// and case-sensitively.
    pub fn parse(text: &str) -> (r: Result<TuningSystem, TuningError>)
        ensures
            r == parse_spec(text@),
            r is Err <==> (forall|t: TuningSystem| t.identifier() != text@),
    {
        if str_equal(text, "EqualTemperament") {
            Ok(TuningSystem::EqualTemperament)
        } else if str_equal(text, "JustIntonation") {
            Ok(TuningSystem::JustIntonation)
        } else if str_equal(text, "JustIntonation24") {
            Ok(TuningSystem::JustIntonation24)
        } else {
            proof {
                assert forall|t: TuningSystem| t.identifier() != text@ by {
                    match t {
                        TuningSystem::EqualTemperament => {},
                        TuningSystem::JustIntonation => {},
                        TuningSystem::JustIntonation24 => {},
                    }
                }
            }
            Err(TuningError::UnknownTuningSystem)
        }
    }

    fn step_label(&self, step: usize) -> (r: &'static str)
        requires
            step < self.spec_size(),
        ensures
            r@ == self.step_name(step as nat),
    {
        match self {
            TuningSystem::JustIntonation24 => twenty_four_tone_label(step),
            _ => twelve_tone_label(step as u32),
        }
    }

    fn step_ratio(&self, step: usize) -> (r: (u32, u32))
        requires
            step < self.spec_size(),
            *self != TuningSystem::EqualTemperament,
        ensures
            self == TuningSystem::JustIntonation ==> r.0 as nat == just_ratio(step as nat).0
                && r.1 as nat == just_ratio(step as nat).1,
            self == TuningSystem::JustIntonation24 ==> r.0 as nat == just_ratio_24(step as nat).0
                && r.1 as nat == just_ratio_24(step as nat).1,
    {
        match self {
            TuningSystem::JustIntonation24 => just_ratio_24_of(step),
            _ => just_ratio_of(step),
        }
    }

    /// The name of a tone index under this system.
    pub fn get_tone_name(&self, tone_index: usize) -> (r: String)
        ensures
            r@ == self.tone_name(tone_index as nat),
    {
        let size = self.size();
        let step = tone_index % size;
        let octave = tone_index / size;
        let label = self.step_label(step);
        let mut name = String::from_str(label);
        if octave == 0 {
            name.append("N");
            append_decimal(&mut name, 1);
            proof {
                reveal_strlit("N");
                assert(name@ == label@ + octave_token(-1));
            }
        } else {
            append_decimal(&mut name, (octave - 1) as u64);
            proof {
                assert(name@ == label@ + octave_token(octave - 1));
            }
        }
        name
    }

    /// The exact ratio of a tone index to the reference tone under this system.
    pub fn get_fraction(&self, tone_index: usize) -> (r: Fraction)
        ensures
            r == self.fraction(tone_index as nat),
            r.wf(),
    {
        let size = self.size();
        let step = tone_index % size;
        let octave = tone_index / size;
        match self {
            TuningSystem::EqualTemperament => Fraction {
                numerator: 1,
                denominator: 1,
                base: tone_index as u64,
                divisions: 12,
            },
            _ => {
                let (numerator, denominator) = self.step_ratio(step);
                Fraction { numerator, denominator, base: octave as u64, divisions: 1 }
            },
        }
    }
}

impl core::str::FromStr for TuningSystem {
    type Err = TuningError;

    fn from_str(text: &str) -> Result<TuningSystem, TuningError> {
        TuningSystem::parse(text)
    }
}

/// The exact ratio of `tone_index` to the reference tone under `tuning_system`.
pub fn get_fraction(tuning_system: TuningSystem, tone_index: usize) -> (r: Fraction)
    ensures
        r == tuning_system.fraction(tone_index as nat),
        r.wf(),
{
    tuning_system.get_fraction(tone_index)
}

/// The twelve-tone equal-temperament ratio of a tone index, in steps of
/// `1 / octave_size` octave: `2^(tone_index / octave_size)`.
pub open spec fn equal_temperament_spec(tone_index: nat, octave_size: nat) -> Fraction {
    Fraction { numerator: 1, denominator: 1, base: tone_index as u64, divisions: octave_size as u32 }
}

/// The equal-temperament ratio `2^(tone_index / octave_size)`, the reference
/// against which the deviation of a tone is measured.
pub fn equal_temperament(tone_index: usize, octave_size: u32) -> (r: Fraction)
    requires
        octave_size > 0,
    ensures
        r == equal_temperament_spec(tone_index as nat, octave_size as nat),
        r.wf(),
{
    Fraction { numerator: 1, denominator: 1, base: tone_index as u64, divisions: octave_size }
}

/// Every tuning system's identifier is read back as that system.
pub proof fn lemma_parse_round_trip(t: TuningSystem)
    ensures
        parse_spec(t.identifier()) == Ok::<TuningSystem, TuningError>(t),
{
    reveal_strlit("EqualTemperament");
    reveal_strlit("JustIntonation");
    reveal_strlit("JustIntonation24");
    assert("EqualTemperament"@[0] != "JustIntonation"@[0]);
    assert("EqualTemperament"@[0] != "JustIntonation24"@[0]);
    assert("JustIntonation"@.len() != "JustIntonation24"@.len());
}

/// Text that is no system's identifier is refused with `UnknownTuningSystem`.
pub proof fn lemma_parse_unknown(text: Seq<char>)
    requires
        forall|t: TuningSystem| t.identifier() != text,
    ensures
        parse_spec(text) == Err::<TuningSystem, TuningError>(TuningError::UnknownTuningSystem),
{
    assert(TuningSystem::EqualTemperament.identifier() != text);
    assert(TuningSystem::JustIntonation.identifier() != text);
    assert(TuningSystem::JustIntonation24.identifier() != text);
}

/// In every system the tone `k` octaves above the reference tone has the
/// ratio exactly `2^k`, with no rational remainder.
pub proof fn lemma_octave_is_power_of_two(t: TuningSystem, k: nat)
    requires
        k * t.spec_size() <= usize::MAX,
    ensures
        t.fraction(k * t.spec_size()).is_power_of_two(k),
{
    let size = t.spec_size();
    vstd::arithmetic::div_mod::lemma_div_multiples_vanish(k as int, size as int);
    vstd::arithmetic::div_mod::lemma_mod_multiples_basic(k as int, size as int);
    assert(k * size == size * k) by (nonlinear_arith);
    assert(k * size <= u64::MAX);
}

/// The octave of a tone never falls as the tone index rises, and rises by
/// exactly one every `size` steps.
pub proof fn lemma_octave_monotone(t: TuningSystem, i: nat, j: nat)
    requires
        i <= j,
    ensures
        t.octave_of(i) <= t.octave_of(j),
        t.octave_of(i + t.spec_size()) == t.octave_of(i) + 1,
{
    let size = t.spec_size() as int;
    vstd::arithmetic::div_mod::lemma_div_is_ordered(i as int, j as int, size);
    vstd::arithmetic::div_mod::lemma_div_plus_one(i as int, size);
    assert(i + size == size + i);
}

/// Under equal temperament a tone's ratio is the equal-temperament reference
/// itself, so it deviates from it by nothing.
pub proof fn lemma_equal_temperament_is_reference(tone_index: nat)
    requires
        tone_index <= usize::MAX,
    ensures
        TuningSystem::EqualTemperament.fraction(tone_index)
            == equal_temperament_spec(tone_index, TuningSystem::EqualTemperament.spec_size()),
{
}

pub(crate) fn twelve_tone_label(step: u32) -> (r: &'static str)
    requires
        step < 12,
    ensures
        r@ == twelve_tone_name(step as nat),
{
    if step == 0 {
        "C"
    } else if step == 1 {
        "C#"
    } else if step == 2 {
        "D"
    } else if step == 3 {
        "D#"
    } else if step == 4 {
        "E"
    } else if step == 5 {
        "F"
    } else if step == 6 {
        "F#"
    } else if step == 7 {
        "G"
    } else if step == 8 {
        "G#"
    } else if step == 9 {
        "A"
    } else if step == 10 {
        "A#"
    } else {
        "B"
    }
}

fn twenty_four_tone_label(step: usize) -> (r: &'static str)
    requires
        step < 24,
    ensures
        r@ == twenty_four_tone_name(step as nat),
{
    if step == 0 {
        "C"
    } else if step == 1 {
        "C+"
    } else if step == 2 {
        "C#"
    } else if step == 3 {
        "C#+"
    } else if step == 4 {
        "D"
    } else if step == 5 {
        "D+"
    } else if step == 6 {
        "D#"
    } else if step == 7 {
        "D#+"
    } else if step == 8 {
        "E"
    } else if step == 9 {
        "E+"
    } else if step == 10 {
        "F"
    } else if step == 11 {
        "F+"
    } else if step == 12 {
        "F#"
    } else if step == 13 {
        "F#+"
    } else if step == 14 {
        "G"
    } else if step == 15 {
        "G+"
    } else if step == 16 {
        "G#"
    } else if step == 17 {
        "G#+"
    } else if step == 18 {
        "A"
    } else if step == 19 {
        "A+"
    } else if step == 20 {
        "A#"
    } else if step == 21 {
        "A#+"
    } else if step == 22 {
        "B"
    } else {
        "B+"
    }
}

fn just_ratio_of(step: usize) -> (r: (u32, u32))
    requires
        step < 12,
    ensures
        r.0 as nat == just_ratio(step as nat).0,
        r.1 as nat == just_ratio(step as nat).1,
{
    if step == 0 {
        (1, 1)
    } else if step == 1 {
        (16, 15)
    } else if step == 2 {
        (9, 8)
    } else if step == 3 {
        (6, 5)
    } else if step == 4 {
        (5, 4)
    } else if step == 5 {
        (4, 3)
    } else if step == 6 {
        (45, 32)
    } else if step == 7 {
        (3, 2)
    } else if step == 8 {
        (8, 5)
    } else if step == 9 {
        (5, 3)
    } else if step == 10 {
        (9, 5)
    } else {
        (15, 8)
    }
}

fn just_ratio_24_of(step: usize) -> (r: (u32, u32))
    requires
        step < 24,
    ensures
        r.0 as nat == just_ratio_24(step as nat).0,
        r.1 as nat == just_ratio_24(step as nat).1,
{
    if step == 0 {
        (1, 1)
    } else if step == 1 {
        (33, 32)
    } else if step == 2 {
        (16, 15)
    } else if step == 3 {
        (12, 11)
    } else if step == 4 {
        (9, 8)
    } else if step == 5 {
        (8, 7)
    } else if step == 6 {
        (6, 5)
    } else if step == 7 {
        (11, 9)
    } else if step == 8 {
        (5, 4)
    } else if step == 9 {
        (9, 7)
    } else if step == 10 {
        (4, 3)
    } else if step == 11 {
        (11, 8)
    } else if step == 12 {
        (45, 32)
    } else if step == 13 {
        (16, 11)
    } else if step == 14 {
        (3, 2)
    } else if step == 15 {
        (14, 9)
    } else if step == 16 {
        (8, 5)
    } else if step == 17 {
        (18, 11)
    } else if step == 18 {
        (5, 3)
    } else if step == 19 {
        (12, 7)
    } else if step == 20 {
        (9, 5)
    } else if step == 21 {
        (11, 6)
    } else if step == 22 {
        (15, 8)
    } else {
        (64, 33)
    }
}

} // verus!
