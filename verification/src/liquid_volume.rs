//! Saturated-liquid molar volume correlation selection.

use vstd::prelude::*;

verus! {

/// Which saturated-liquid-volume correlation to use for a component
/// (codes: `Rackett = 1`, `Thomson = 2`).
#[derive(Debug, Clone, Copy, PartialEq, Eq, Hash, Structural)]
pub enum VolumeModel {
    /// Spencer-Danner modified Rackett equation (uses the Rackett
    /// compressibility ZRA), code 1.
    Rackett,
    /// Thomson / COSTALD correlation (uses the characteristic volume and the
    /// SRK acentric factor), code 2.
    Thomson,
}

impl VolumeModel {
    /// The integer code of the correlation.
    pub open spec fn spec_code(self) -> int {
        match self {
            VolumeModel::Rackett => 1,
            VolumeModel::Thomson => 2,
        }
    }

    /// Returns the integer code of the correlation.
    pub fn code(&self) -> (c: i32)
        ensures
            c == self.spec_code(),
    {
        match self {
            VolumeModel::Rackett => 1,
            VolumeModel::Thomson => 2,
        }
    }
}

} // verus!
