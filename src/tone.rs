use vstd::prelude::*;
use crate::fraction::Fraction;
use crate::tuning::TuningSystem;

verus! {

/// One tone of a tuning system: the system, the tone's index in it, and the
/// name and exact ratio that the system gives that index.
#[derive(Clone, Debug, PartialEq)]
pub struct Tone {
    pub name: String,
    pub fraction: Fraction,
    pub tone_index: usize,
    pub tuning_system: TuningSystem,
}

impl Tone {
    /// The name and the ratio are the ones the tuning system gives the index.
    pub open spec fn wf(&self) -> bool {
        &&& self.name@ == self.tuning_system.tone_name(self.tone_index as nat)
        &&& self.fraction == self.tuning_system.fraction(self.tone_index as nat)
    }

    /// The tone at `tone_index` of `tuning_system`.
    pub fn new(tuning_system: TuningSystem, tone_index: usize) -> (r: Tone)
        ensures
            r.wf(),
            r.tuning_system == tuning_system,
            r.tone_index == tone_index,
    {
        Tone::new_with_octave_size(tuning_system, tone_index)
    }

    /// The tone at `tone_index` of `tuning_system`, its name and ratio derived
    /// from the system's octave size.
    pub fn new_with_octave_size(tuning_system: TuningSystem, tone_index: usize) -> (r: Tone)
        ensures
            r.wf(),
            r.tuning_system == tuning_system,
            r.tone_index == tone_index,
    {
        let name = tuning_system.get_tone_name(tone_index);
        let fraction = tuning_system.get_fraction(tone_index);
        Tone { name, fraction, tone_index, tuning_system }
    }

    /// The tone's name, such as `A4`.
    pub fn name(&self) -> (r: &str)
        ensures
            r@ == self.name@,
    {
        self.name.as_str()
    }

    /// The octave the tone lies in, counting from the reference octave as 0.
    pub fn octave(&self) -> (r: usize)
        ensures
            r == self.tuning_system.octave_of(self.tone_index as nat),
    {
        self.tone_index / self.tuning_system.size()
    }

    /// The tone's exact ratio to the reference tone.
    pub fn fraction(&self) -> (r: Fraction)
        ensures
            r == self.fraction,
    {
        self.fraction
    }

    pub fn tone_index(&self) -> (r: usize)
        ensures
            r == self.tone_index,
    {
        self.tone_index
    }

    pub fn tuning_system(&self) -> (r: TuningSystem)
        ensures
            r == self.tuning_system,
    {
        self.tuning_system
    }
}

} // verus!
