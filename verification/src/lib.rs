//! Model-selection, admission and component-catalog layer of a vapor-liquid
//! equilibrium engine.
//!
//! The numerical thermodynamics (cubic equations of state, activity models,
//! flash drivers) works in floating point and lives outside this verified
//! crate; what is proved here is everything those drivers decide before and
//! around the arithmetic: which model family an equation of state belongs to,
//! which model combinations are admissible, which thermodynamic route a phase
//! takes, the integer codes of every model, and the bundled
//! pure-component catalog with its case- and whitespace-insensitive lookup.

use vstd::prelude::*;

pub mod activity;
pub mod db;
pub mod eos;
pub mod flash;
pub mod iteration;
pub mod liquid_volume;
pub mod mixing;
pub mod mixture;
pub mod saturation;
pub mod text;

pub use activity::ActivityModel;
pub use eos::CubicEos;
pub use mixing::MixingRule;
pub use saturation::SatPressureModel;

verus! {

/// The integer codes of the model families share one number space: no
/// mixing-rule code is also an EOS or activity-model code, the NRTL code is
/// no other model's code, and an EOS code equals an activity-model code
/// only for Patel-Teja USB and van Laar (both 21).
pub proof fn lemma_model_code_spaces(e: CubicEos, a: ActivityModel, r: MixingRule)
    ensures
        r.spec_code() != e.spec_code(),
        r.spec_code() != a.spec_code(),
        a == ActivityModel::Nrtl ==> a.spec_code() != e.spec_code() && a.spec_code() != r.spec_code(),
        e.spec_code() == a.spec_code() ==> e == CubicEos::PatelTejaUSB && a == ActivityModel::VanLaar,
{
}

} // verus!
