//! Saturation-pressure correlation selection.

use vstd::prelude::*;

verus! {

/// Pure-component saturation-pressure correlation.
#[derive(Debug, Clone, Copy, PartialEq, Eq, Hash, Structural)]
pub enum SatPressureModel {
    /// Reduced Antoine form `ln(Psat/Pc) = a₁ − a₂/(a₃ + T)`.
    Antoine,
    /// Riedel correlation.
    Riedel,
    /// Muller correlation.
    Muller,
    /// RPM correlation.
    Rpm,
}

} // verus!
