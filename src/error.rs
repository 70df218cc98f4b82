use vstd::prelude::*;

verus! {

/// What can go wrong when building the values of this library.
#[derive(Clone, Copy, Debug, PartialEq, Eq, Structural)]
pub enum TuningError {
    /// The identifier names no tuning system.
    UnknownTuningSystem,
    /// A fraction was given a zero denominator.
    InvalidFraction,
}

} // verus!
