//! Activity-coefficient model selection and its integer codes.

use vstd::prelude::*;

verus! {

/// Activity-coefficient model for liquid-phase non-ideality.
///
/// The codes (see [`ActivityModel::code`]) occupy 21–25 for the classical
/// models; NRTL takes 37, the first value above every mixing-rule code.
#[derive(Debug, Clone, Copy, PartialEq, Eq, Hash, Structural)]
pub enum ActivityModel {
    /// Ideal solution (γ = 1), code 25.
    IdealSolution,
    /// van Laar, code 21.
    VanLaar,
    /// Wilson, code 22.
    Wilson,
    /// Scatchard-Hildebrand regular solution, code 23.
    ScatchardHildebrand,
    /// Two-suffix Margules (binary only), code 24.
    Margules,
    /// NRTL (Renon & Prausnitz), code 37.
    Nrtl,
}

impl ActivityModel {
    /// The integer code of the model.
    pub open spec fn spec_code(self) -> int {
        match self {
            ActivityModel::IdealSolution => 25,
            ActivityModel::VanLaar => 21,
            ActivityModel::Wilson => 22,
            ActivityModel::ScatchardHildebrand => 23,
            ActivityModel::Margules => 24,
            ActivityModel::Nrtl => 37,
        }
    }

    /// Returns the integer code of the model.
    pub fn code(&self) -> (c: i32)
        ensures
            c == self.spec_code(),
    {
        match self {
            ActivityModel::IdealSolution => 25,
            ActivityModel::VanLaar => 21,
            ActivityModel::Wilson => 22,
            ActivityModel::ScatchardHildebrand => 23,
            ActivityModel::Margules => 24,
            ActivityModel::Nrtl => 37,
        }
    }
}

/// Two activity models with the same code are the same model.
pub proof fn lemma_activity_code_injective(a: ActivityModel, b: ActivityModel)
    requires
        a.spec_code() == b.spec_code(),
    ensures
        a == b,
{
}

} // verus!
