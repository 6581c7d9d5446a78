//! The decisions the flash, saturation-point, critical-point, envelope and
//! regression drivers take before they iterate: input shapes, which phase
//! models a driver supports, and which thermodynamic route a phase's
//! enthalpy takes.

use vstd::prelude::*;

use crate::activity::ActivityModel;
use crate::eos::{CubicEos, LiquidModel, PhaseId, VaporModel};
use crate::saturation::SatPressureModel;

verus! {

/// A driver that needs particular phase models.
#[derive(Debug, Clone, Copy, PartialEq, Eq, Structural)]
pub enum FlashDriver {
    /// Adiabatic (PH) flash: a cubic EOS in both phases.
    Adiabatic,
    /// Mixture critical point: a two-parameter cubic liquid EOS.
    CriticalPoint,
    /// Phase-envelope tracing: a cubic liquid EOS.
    PhaseEnvelope,
    /// Minimum-Gibbs fugacity for stability analysis: a cubic liquid EOS.
    MinGibbsFugacity,
    /// Temperature/pressure derivatives of the K-values.
    KValueDerivatives,
    /// Phase enthalpy and entropy.
    PhaseEnthalpy,
}

/// Why a flash-layer request was refused before any iteration.
#[derive(Debug, Clone, PartialEq, Eq, Structural)]
pub enum FlashSpecError {
    /// The composition does not have one entry per component.
    CompositionLength { components: usize, composition: usize },
    /// Liquid or vapor composition does not have one entry per component.
    PhaseLengths { components: usize, liquid: usize, vapor: usize },
    /// A binary-only regression was given another number of components.
    NotBinary { components: usize },
    /// A regression was given no data points.
    NoDataPoints,
    /// The water component index is not a component of the mixture.
    WaterIndexOutOfRange { index: usize, components: usize },
    /// The driver does not support the configured phase models.
    Unsupported { driver: FlashDriver },
}

/// Checks that a composition has one entry per component.
pub fn check_composition_len(components: usize, composition: usize) -> (r: Result<(), FlashSpecError>)
    ensures
        r == (if composition == components {
            Ok(())
        } else {
            Err(FlashSpecError::CompositionLength { components, composition })
        }),
{
    if composition != components {
        Err(FlashSpecError::CompositionLength { components, composition })
    } else {
        Ok(())
    }
}

/// Checks that both trial phase compositions of a K-value evaluation have
/// one entry per component.
pub fn check_phase_lengths(components: usize, liquid: usize, vapor: usize) -> (r: Result<
    (),
    FlashSpecError,
>)
    ensures
        r == (if liquid == components && vapor == components {
            Ok(())
        } else {
            Err(FlashSpecError::PhaseLengths { components, liquid, vapor })
        }),
{
    if liquid != components || vapor != components {
        Err(FlashSpecError::PhaseLengths { components, liquid, vapor })
    } else {
        Ok(())
    }
}

/// Checks the input of a binary parameter regression: exactly two
/// components and at least one data point (in that order).
pub fn check_binary_regression(components: usize, points: usize) -> (r: Result<(), FlashSpecError>)
    ensures
        r == (if components != 2 {
            Err(FlashSpecError::NotBinary { components })
        } else if points == 0 {
            Err(FlashSpecError::NoDataPoints)
        } else {
            Ok(())
        }),
{
    if components != 2 {
        Err(FlashSpecError::NotBinary { components })
    } else if points == 0 {
        Err(FlashSpecError::NoDataPoints)
    } else {
        Ok(())
    }
}

/// Checks the shape of a free-water flash: one feed entry per component
/// and a water index that names a component (in that order).
pub fn check_free_water_shape(components: usize, feed: usize, water_index: usize) -> (r: Result<
    (),
    FlashSpecError,
>)
    ensures
        r == (if feed != components {
            Err(FlashSpecError::CompositionLength { components, composition: feed })
        } else if water_index >= components {
            Err(FlashSpecError::WaterIndexOutOfRange { index: water_index, components })
        } else {
            Ok(())
        }),
{
    if feed != components {
        Err(FlashSpecError::CompositionLength { components, composition: feed })
    } else if water_index >= components {
        Err(FlashSpecError::WaterIndexOutOfRange { index: water_index, components })
    } else {
        Ok(())
    }
}

/// The (liquid, vapor) EOS pair of a system with a cubic EOS in both
/// phases, or `None`.
pub open spec fn spec_cubic_pair(liquid: LiquidModel, vapor: VaporModel) -> Option<(CubicEos, CubicEos)> {
    match (liquid, vapor) {
        (LiquidModel::Cubic(le), VaporModel::Cubic(ve)) => Some((le, ve)),
        _ => None,
    }
}

/// Returns the (liquid EOS, vapor EOS) pair that the adiabatic flash needs,
/// or refuses a system that is not cubic in both phases.
pub fn cubic_pair(liquid: LiquidModel, vapor: VaporModel) -> (r: Result<(CubicEos, CubicEos), FlashSpecError>)
    ensures
        r == (match spec_cubic_pair(liquid, vapor) {
            Some(p) => Ok(p),
            None => Err(FlashSpecError::Unsupported { driver: FlashDriver::Adiabatic }),
        }),
{
    match (liquid, vapor) {
        (LiquidModel::Cubic(le), VaporModel::Cubic(ve)) => Ok((le, ve)),
        _ => Err(FlashSpecError::Unsupported { driver: FlashDriver::Adiabatic }),
    }
}

/// Returns the EOS of the critical-point search: the liquid model must be
/// a two-parameter cubic EOS.
pub fn critical_point_eos(liquid: LiquidModel) -> (r: Result<CubicEos, FlashSpecError>)
    ensures
        r == (match liquid {
            LiquidModel::Cubic(e) => if !e.spec_is_three_parameter() {
                Ok(e)
            } else {
                Err(FlashSpecError::Unsupported { driver: FlashDriver::CriticalPoint })
            },
            _ => Err(FlashSpecError::Unsupported { driver: FlashDriver::CriticalPoint }),
        }),
{
    match liquid {
        LiquidModel::Cubic(e) => {
            if !e.is_three_parameter() {
                Ok(e)
            } else {
                Err(FlashSpecError::Unsupported { driver: FlashDriver::CriticalPoint })
            }
        },
        _ => Err(FlashSpecError::Unsupported { driver: FlashDriver::CriticalPoint }),
    }
}

/// Returns the liquid EOS for a driver that works on a cubic (φ-φ) system
/// only — phase-envelope tracing or the minimum-Gibbs fugacity — or
/// refuses the system on that driver's behalf.
pub fn cubic_liquid_eos(liquid: LiquidModel, driver: FlashDriver) -> (r: Result<CubicEos, FlashSpecError>)
    ensures
        r == (match liquid {
            LiquidModel::Cubic(e) => Ok(e),
            _ => Err(FlashSpecError::Unsupported { driver }),
        }),
{
    match liquid {
        LiquidModel::Cubic(e) => Ok(e),
        _ => Err(FlashSpecError::Unsupported { driver }),
    }
}

/// Whether exact temperature/pressure derivatives of the K-values are
/// available for a model pair: not for a virial vapor, nor for a
/// Chao-Seader liquid.
pub open spec fn spec_derivatives_supported(vapor: VaporModel, liquid: LiquidModel) -> bool {
    !(vapor is Virial) && !(liquid is ChaoSeader)
}

/// Refuses K-value derivative requests for a virial vapor or a
/// Chao-Seader liquid.
pub fn check_derivative_support(vapor: VaporModel, liquid: LiquidModel) -> (r: Result<(), FlashSpecError>)
    ensures
        r == (if spec_derivatives_supported(vapor, liquid) {
            Ok(())
        } else {
            Err(FlashSpecError::Unsupported { driver: FlashDriver::KValueDerivatives })
        }),
{
    match (vapor, liquid) {
        (VaporModel::Virial, _) => Err(FlashSpecError::Unsupported { driver: FlashDriver::KValueDerivatives }),
        (_, LiquidModel::ChaoSeader) => Err(FlashSpecError::Unsupported { driver: FlashDriver::KValueDerivatives }),
        _ => Ok(()),
    }
}

/// The cubic EOS that models the given phase, if that phase is cubic.
pub open spec fn spec_phase_eos(vapor: VaporModel, liquid: LiquidModel, phase: PhaseId) -> Option<CubicEos> {
    match phase {
        PhaseId::Vapor => match vapor {
            VaporModel::Cubic(e) => Some(e),
            _ => None,
        },
        PhaseId::Liquid => match liquid {
            LiquidModel::Cubic(e) => Some(e),
            _ => None,
        },
    }
}

/// Returns the cubic EOS that models `phase` under the given model pair,
/// or `None` when that phase is not modelled by a cubic EOS.
pub fn phase_eos(vapor: VaporModel, liquid: LiquidModel, phase: PhaseId) -> (r: Option<CubicEos>)
    ensures
        r == spec_phase_eos(vapor, liquid, phase),
{
    match phase {
        PhaseId::Vapor => match vapor {
            VaporModel::Cubic(e) => Some(e),
            _ => None,
        },
        PhaseId::Liquid => match liquid {
            LiquidModel::Cubic(e) => Some(e),
            _ => None,
        },
    }
}

/// How the molar enthalpy and entropy of one phase are assembled.
#[derive(Debug, Clone, Copy, PartialEq, Eq, Structural)]
pub enum EnthalpyRoute {
    /// Ideal gas plus the EOS departure of the given cubic EOS.
    EosDeparture(CubicEos),
    /// Ideal-gas mixture terms only (ideal-gas vapor).
    IdealGas,
    /// γ-φ liquid: ideal gas minus the condensation enthalpy, plus the
    /// excess enthalpy of the activity model (none for an ideal solution).
    CondensedLiquid(Option<ActivityModel>),
}

/// The enthalpy route of `phase`, or `None` when it is not available
/// (a virial vapor). Every liquid that is not cubic goes the condensed-liquid
/// way; only an activity model adds an excess term.
pub open spec fn spec_enthalpy_route(vapor: VaporModel, liquid: LiquidModel, phase: PhaseId) -> Option<
    EnthalpyRoute,
> {
    match spec_phase_eos(vapor, liquid, phase) {
        Some(e) => Some(EnthalpyRoute::EosDeparture(e)),
        None => match phase {
            PhaseId::Vapor => match vapor {
                VaporModel::IdealGas => Some(EnthalpyRoute::IdealGas),
                _ => None,
            },
            PhaseId::Liquid => match liquid {
                LiquidModel::Activity(m) => Some(EnthalpyRoute::CondensedLiquid(Some(m))),
                _ => Some(EnthalpyRoute::CondensedLiquid(None)),
            },
        },
    }
}

/// Chooses how the enthalpy and entropy of `phase` are computed: a cubic
/// phase goes through the EOS departure, an ideal-gas vapor through the
/// ideal-gas terms, any other liquid (activity model, ideal solution,
/// Chao-Seader) through condensation plus the excess properties of its
/// activity model, if it has one; a virial vapor is refused.
pub fn enthalpy_route(vapor: VaporModel, liquid: LiquidModel, phase: PhaseId) -> (r: Result<
    EnthalpyRoute,
    FlashSpecError,
>)
    ensures
        r == (match spec_enthalpy_route(vapor, liquid, phase) {
            Some(route) => Ok(route),
            None => Err(FlashSpecError::Unsupported { driver: FlashDriver::PhaseEnthalpy }),
        }),
{
    match phase_eos(vapor, liquid, phase) {
        Some(e) => Ok(EnthalpyRoute::EosDeparture(e)),
        None => match phase {
            PhaseId::Vapor => match vapor {
                VaporModel::IdealGas => Ok(EnthalpyRoute::IdealGas),
                _ => Err(FlashSpecError::Unsupported { driver: FlashDriver::PhaseEnthalpy }),
            },
            PhaseId::Liquid => match liquid {
                LiquidModel::Activity(m) => Ok(EnthalpyRoute::CondensedLiquid(Some(m))),
                _ => Ok(EnthalpyRoute::CondensedLiquid(None)),
            },
        },
    }
}

/// Returns the saturation model of component `i`: the explicit override at
/// position `i` when there is one, the component's own model otherwise.
pub fn select_sat_model(
    overrides: &Vec<SatPressureModel>,
    i: usize,
    own: SatPressureModel,
) -> (m: SatPressureModel)
    ensures
        m == (if i < overrides@.len() {
            overrides@[i as int]
        } else {
            own
        }),
{
    if i < overrides.len() {
        overrides[i]
    } else {
        own
    }
}

/// Every driver that refuses non-cubic systems accepts exactly the systems
/// whose phase EOS it reads: the adiabatic flash accepts a model pair iff
/// both phases have a cubic EOS, and then uses those two EOS.
pub proof fn lemma_adiabatic_pair_is_phase_eos(vapor: VaporModel, liquid: LiquidModel)
    ensures
        spec_cubic_pair(liquid, vapor) is Some <==> (spec_phase_eos(vapor, liquid, PhaseId::Liquid) is Some
            && spec_phase_eos(vapor, liquid, PhaseId::Vapor) is Some),
        spec_cubic_pair(liquid, vapor) is Some ==> spec_cubic_pair(liquid, vapor)->0 == (
        spec_phase_eos(vapor, liquid, PhaseId::Liquid)->0, spec_phase_eos(vapor, liquid, PhaseId::Vapor)->0),
{
}

/// A phase modelled by a cubic EOS always takes the EOS-departure enthalpy
/// route with that EOS; a phase that is not cubic never does.
pub proof fn lemma_cubic_phase_uses_departure(vapor: VaporModel, liquid: LiquidModel, phase: PhaseId)
    ensures
        spec_phase_eos(vapor, liquid, phase) is Some ==> spec_enthalpy_route(vapor, liquid, phase)
            == Some(EnthalpyRoute::EosDeparture(spec_phase_eos(vapor, liquid, phase)->0)),
        spec_phase_eos(vapor, liquid, phase) is None ==> !(spec_enthalpy_route(vapor, liquid, phase) matches Some(EnthalpyRoute::EosDeparture(_))),
{
}

/// Only a virial vapor has no enthalpy route: every liquid, whatever its
/// model, and every other vapor has one.
pub proof fn lemma_only_virial_vapor_lacks_route(vapor: VaporModel, liquid: LiquidModel, phase: PhaseId)
    ensures
        spec_enthalpy_route(vapor, liquid, phase) is None <==> (phase == PhaseId::Vapor && vapor
            == VaporModel::Virial),
{
}

/// The liquid enthalpy route carries exactly the configured activity
/// model: an `Activity(m)` liquid adds the excess properties of `m`, and a
/// liquid that is neither cubic nor an activity model (ideal solution,
/// Chao-Seader) adds none.
pub proof fn lemma_liquid_route_carries_activity_model(
    vapor: VaporModel,
    liquid: LiquidModel,
    m: ActivityModel,
)
    ensures
        spec_enthalpy_route(vapor, LiquidModel::Activity(m), PhaseId::Liquid) == Some(
            EnthalpyRoute::CondensedLiquid(Some(m)),
        ),
        spec_enthalpy_route(vapor, LiquidModel::IdealSolution, PhaseId::Liquid) == Some(
            EnthalpyRoute::CondensedLiquid(None),
        ),
        spec_enthalpy_route(vapor, LiquidModel::ChaoSeader, PhaseId::Liquid) == Some(
            EnthalpyRoute::CondensedLiquid(None),
        ),
        spec_enthalpy_route(vapor, liquid, PhaseId::Liquid) == Some(
            EnthalpyRoute::CondensedLiquid(Some(m)),
        ) <==> liquid == LiquidModel::Activity(m),
{
}

/// K-value derivatives are refused exactly for a virial vapor or a
/// Chao-Seader liquid; in particular every cubic (φ-φ) liquid with a cubic
/// or ideal-gas vapor, and every activity or ideal-solution liquid with
/// such a vapor, is supported.
pub proof fn lemma_derivative_support_exact(vapor: VaporModel, liquid: LiquidModel, e: CubicEos)
    ensures
        spec_derivatives_supported(vapor, liquid) <==> (vapor != VaporModel::Virial && liquid
            != LiquidModel::ChaoSeader),
        spec_derivatives_supported(VaporModel::Cubic(e), LiquidModel::Cubic(e)),
        spec_derivatives_supported(VaporModel::IdealGas, LiquidModel::Cubic(e)),
{
}

} // verus!
