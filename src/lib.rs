//! Tones of musical tuning systems: exact frequency ratios, tone names and
//! octaves, and ABC notation for tone names.

pub mod error;
pub mod fraction;
pub mod text;
pub mod tuning;
pub mod tone;
pub mod chromatic;
pub mod notation;
