use vstd::prelude::*;
use vstd::string::*;
use crate::fraction::Fraction;
use crate::text::append_decimal;
use crate::tuning::{octave_token, twelve_tone_label, twelve_tone_name};

verus! {

/// The octave size of the single-system naming scheme.
pub const OCTAVE_SIZE: u32 = 12;

/// The octave size and step size that parameterize the single-system naming
/// scheme, held as a value rather than as process-wide state.
#[derive(Clone, Copy, Debug, PartialEq, Eq, Structural)]
pub struct Config {
    pub octave_size: usize,
    pub step_size: usize,
}

impl Config {
    /// Twelve steps to the octave, one step at a time.
    pub fn new() -> (r: Config)
        ensures
            r.octave_size == OCTAVE_SIZE,
            r.step_size == 1,
    {
        Config { octave_size: 12, step_size: 1 }
    }

    pub fn set_octave_size(&mut self, size: usize)
        ensures
            final(self).octave_size == size,
            final(self).step_size == old(self).step_size,
    {
        self.octave_size = size;
    }

    pub fn set_step_size(&mut self, size: usize)
        ensures
            final(self).step_size == size,
            final(self).octave_size == old(self).octave_size,
    {
        self.step_size = size;
    }
}

/// The ratio of a tone of the single-system scheme: a plain ratio with no
/// octave folded in yet (`divisions == 1`, `base == 0`) is multiplied by
/// `2^octave`; a ratio that already carries octaves in its exponent, or is
/// given in steps of the octave, is kept as it is.
pub open spec fn transposed(fraction: Fraction, octave: nat) -> Fraction {
    if fraction.divisions == 1 && fraction.base == 0 {
        Fraction { base: octave as u64, ..fraction }
    } else {
        fraction
    }
}

/// A tone of the single-system scheme: a given ratio, named after the
/// twelve chromatic steps with the octave counted from one below the
/// reference octave.
#[derive(Clone, Debug, PartialEq)]
pub struct Tone {
    pub name: String,
    pub fraction: Fraction,
    pub octave: u32,
    pub octave_size: u32,
    pub tone_index: u32,
}

impl Tone {
    pub open spec fn wf(&self) -> bool {
        &&& self.octave_size > 0
        &&& self.octave == self.tone_index / self.octave_size
        &&& self.name@ == twelve_tone_name((self.tone_index % OCTAVE_SIZE) as nat)
            + octave_token(self.octave - 1)
    }

    /// The tone at `tone_index` with twelve steps to the octave.
    pub fn new(fraction: Fraction, tone_index: u32) -> (r: Tone)
        requires
            fraction.wf(),
        ensures
            r.wf(),
            r.octave_size == OCTAVE_SIZE,
            r.tone_index == tone_index,
            r.fraction == transposed(fraction, r.octave as nat),
            fraction.base != 0 ==> r.fraction == fraction,
    {
        Tone::new_with_octave_size(fraction, OCTAVE_SIZE, tone_index)
    }

    /// The tone at `tone_index` with `octave_size` steps to the octave.
    pub fn new_with_octave_size(fraction: Fraction, octave_size: u32, tone_index: u32) -> (r: Tone)
        requires
            fraction.wf(),
            octave_size > 0,
        ensures
            r.wf(),
            r.octave_size == octave_size,
            r.tone_index == tone_index,
            r.fraction == transposed(fraction, r.octave as nat),
            fraction.base != 0 ==> r.fraction == fraction,
    {
        let label = twelve_tone_label(tone_index % OCTAVE_SIZE);
        let octave: u32 = tone_index / octave_size;
        let mut name = String::from_str(label);
        if octave == 0 {
            name.append("N");
            append_decimal(&mut name, 1);
            proof {
                reveal_strlit("N");
                assert(name@ == label@ + octave_token(-1));
            }
        } else {
            append_decimal(&mut name, (octave - 1) as u64);
            proof {
                assert(name@ == label@ + octave_token(octave - 1));
            }
        }
        let mut fraction = fraction;
        if fraction.divisions == 1 && fraction.base == 0 {
            fraction.base = octave as u64;
        }
        Tone { name, fraction, octave, octave_size, tone_index }
    }

    pub fn name(&self) -> (r: &str)
        ensures
            r@ == self.name@,
    {
        self.name.as_str()
    }

    pub fn octave(&self) -> (r: u32)
        ensures
            r == self.octave,
    {
        self.octave
    }

    pub fn octave_size(&self) -> (r: u32)
        ensures
            r == self.octave_size,
    {
        self.octave_size
    }

    pub fn tone_index(&self) -> (r: u32)
        ensures
            r == self.tone_index,
    {
        self.tone_index
    }

    pub fn fraction(&self) -> (r: Fraction)
        ensures
            r == self.fraction,
    {
        self.fraction
    }
}

} // verus!
