use vle_thermo::activity::ActivityModel;
use vle_thermo::eos::{CubicEos, LiquidModel, PhaseId, VaporModel};
use vle_thermo::flash::{
    check_binary_regression, check_composition_len, check_derivative_support, check_free_water_shape,
    check_phase_lengths, critical_point_eos, cubic_liquid_eos, cubic_pair, enthalpy_route, phase_eos,
    select_sat_model, EnthalpyRoute, FlashDriver, FlashSpecError,
};
use vle_thermo::mixing::MixingRule;
use vle_thermo::mixture::{pure_param_needs, validate, MixSpecError, MixtureShape, PureParamNeeds};
use vle_thermo::iteration::{acceleration_due, next_jacobian_update, JacobianUpdate};
use vle_thermo::saturation::SatPressureModel;

fn shape(eos: CubicEos, rule: MixingRule, has_ge: bool) -> MixtureShape {
    MixtureShape { eos, rule, has_ge, n_components: 2, kij_rows: vec![2, 2] }
}

#[test]
fn ge_rule_without_activity_model_is_rejected() {
    assert_eq!(
        validate(&shape(CubicEos::PR1976, MixingRule::WongSandler, false), 2),
        Err(MixSpecError::MissingActivityModel { rule: MixingRule::WongSandler })
    );
    assert_eq!(validate(&shape(CubicEos::PR1976, MixingRule::WongSandler, true), 2), Ok(()));
}

#[test]
fn c_parameter_rule_as_ab_rule_is_rejected() {
    assert_eq!(
        validate(&shape(CubicEos::PR1976, MixingRule::PatelTejaC, false), 2),
        Err(MixSpecError::CParameterRuleAsAbRule { rule: MixingRule::PatelTejaC })
    );
}

#[test]
fn composition_length_mismatch_is_rejected_first() {
    assert_eq!(
        validate(&shape(CubicEos::PR1976, MixingRule::IVDW, false), 1),
        Err(MixSpecError::CompositionLength { components: 2, composition: 1 })
    );
    assert_eq!(
        validate(&shape(CubicEos::PR1976, MixingRule::PatelTejaC, false), 3),
        Err(MixSpecError::CompositionLength { components: 2, composition: 3 })
    );
}

#[test]
fn kij_must_be_empty_or_square() {
    let mut s = shape(CubicEos::RKS1972, MixingRule::Classical, false);
    s.kij_rows = vec![];
    assert_eq!(validate(&s, 2), Ok(()));
    s.kij_rows = vec![2];
    assert_eq!(validate(&s, 2), Err(MixSpecError::KijShape { components: 2 }));
    s.kij_rows = vec![2, 1];
    assert_eq!(validate(&s, 2), Err(MixSpecError::KijShape { components: 2 }));
}

#[test]
fn ge_rule_with_three_parameter_eos_is_rejected() {
    assert_eq!(
        validate(&shape(CubicEos::PatelTeja, MixingRule::MHV2, true), 2),
        Err(MixSpecError::GeRuleWithThreeParameterEos { rule: MixingRule::MHV2, eos: CubicEos::PatelTeja })
    );
    assert_eq!(validate(&shape(CubicEos::PatelTeja, MixingRule::Classical, false), 2), Ok(()));
}

#[test]
fn invalid_combinations_are_rejected() {
    let pr_classical = |rule| MixtureShape {
        eos: CubicEos::PR1976,
        rule,
        has_ge: false,
        n_components: 2,
        kij_rows: vec![2, 2],
    };
    assert!(matches!(
        validate(&pr_classical(MixingRule::WongSandler), 2),
        Err(MixSpecError::MissingActivityModel { .. })
    ));
    assert!(matches!(
        validate(&pr_classical(MixingRule::PatelTejaC), 2),
        Err(MixSpecError::CParameterRuleAsAbRule { .. })
    ));
    assert!(matches!(
        validate(&pr_classical(MixingRule::IVDW), 1),
        Err(MixSpecError::CompositionLength { .. })
    ));
}

#[test]
fn dimension_mismatch_errors() {
    assert!(matches!(check_phase_lengths(2, 1, 2), Err(FlashSpecError::PhaseLengths { .. })));
}

#[test]
fn rejects_three_parameter_eos() {
    assert!(matches!(
        critical_point_eos(LiquidModel::Cubic(CubicEos::PatelTeja)),
        Err(FlashSpecError::Unsupported { .. })
    ));
}

#[test]
fn rejects_non_cubic_system() {
    assert!(matches!(
        cubic_liquid_eos(LiquidModel::IdealSolution, FlashDriver::PhaseEnvelope),
        Err(FlashSpecError::Unsupported { .. })
    ));
}

#[test]
fn adiabatic_rejects_non_cubic_system() {
    assert!(matches!(
        cubic_pair(LiquidModel::IdealSolution, VaporModel::Cubic(CubicEos::PR1976)),
        Err(FlashSpecError::Unsupported { .. })
    ));
}

#[test]
fn rejects_non_binary() {
    assert!(matches!(check_binary_regression(1, 1), Err(FlashSpecError::NotBinary { .. })));
}

#[test]
fn aij_regression_rejects_non_binary() {
    assert!(matches!(check_binary_regression(1, 1), Err(FlashSpecError::NotBinary { .. })));
}

#[test]
fn k_value_phase_lengths_must_match() {
    assert_eq!(
        check_phase_lengths(2, 1, 2),
        Err(FlashSpecError::PhaseLengths { components: 2, liquid: 1, vapor: 2 })
    );
    assert_eq!(check_phase_lengths(2, 2, 2), Ok(()));
    assert_eq!(
        check_composition_len(3, 2),
        Err(FlashSpecError::CompositionLength { components: 3, composition: 2 })
    );
}

#[test]
fn critical_point_refuses_three_parameter_and_non_cubic() {
    let unsupported = Err(FlashSpecError::Unsupported { driver: FlashDriver::CriticalPoint });
    assert_eq!(critical_point_eos(LiquidModel::Cubic(CubicEos::PatelTeja)), unsupported);
    assert_eq!(critical_point_eos(LiquidModel::IdealSolution), unsupported);
    assert_eq!(critical_point_eos(LiquidModel::Cubic(CubicEos::PR1976)), Ok(CubicEos::PR1976));
}

#[test]
fn envelope_and_adiabatic_refuse_non_cubic_systems() {
    assert_eq!(
        cubic_liquid_eos(LiquidModel::IdealSolution, FlashDriver::PhaseEnvelope),
        Err(FlashSpecError::Unsupported { driver: FlashDriver::PhaseEnvelope })
    );
    assert_eq!(
        cubic_pair(LiquidModel::IdealSolution, VaporModel::Cubic(CubicEos::PR1976)),
        Err(FlashSpecError::Unsupported { driver: FlashDriver::Adiabatic })
    );
    assert_eq!(
        cubic_pair(LiquidModel::Cubic(CubicEos::PR1976), VaporModel::Cubic(CubicEos::RKS1972)),
        Ok((CubicEos::PR1976, CubicEos::RKS1972))
    );
}

#[test]
fn regressions_are_binary_with_data() {
    assert_eq!(check_binary_regression(1, 1), Err(FlashSpecError::NotBinary { components: 1 }));
    assert_eq!(check_binary_regression(2, 0), Err(FlashSpecError::NoDataPoints));
    assert_eq!(check_binary_regression(2, 5), Ok(()));
}

#[test]
fn free_water_shape_checks() {
    assert_eq!(
        check_free_water_shape(2, 1, 1),
        Err(FlashSpecError::CompositionLength { components: 2, composition: 1 })
    );
    assert_eq!(
        check_free_water_shape(2, 2, 5),
        Err(FlashSpecError::WaterIndexOutOfRange { index: 5, components: 2 })
    );
    assert_eq!(check_free_water_shape(2, 2, 1), Ok(()));
}

#[test]
fn derivatives_refuse_virial_vapor_and_chao_seader_liquid() {
    let unsupported = Err(FlashSpecError::Unsupported { driver: FlashDriver::KValueDerivatives });
    assert_eq!(check_derivative_support(VaporModel::Virial, LiquidModel::IdealSolution), unsupported);
    assert_eq!(check_derivative_support(VaporModel::IdealGas, LiquidModel::ChaoSeader), unsupported);
    assert_eq!(
        check_derivative_support(VaporModel::IdealGas, LiquidModel::Activity(ActivityModel::Wilson)),
        Ok(())
    );
}

#[test]
fn enthalpy_routes_per_phase_model() {
    let pr = CubicEos::PR1976;
    assert_eq!(phase_eos(VaporModel::Cubic(pr), LiquidModel::IdealSolution, PhaseId::Vapor), Some(pr));
    assert_eq!(phase_eos(VaporModel::Cubic(pr), LiquidModel::IdealSolution, PhaseId::Liquid), None);
    assert_eq!(
        enthalpy_route(VaporModel::IdealGas, LiquidModel::Cubic(pr), PhaseId::Liquid),
        Ok(EnthalpyRoute::EosDeparture(pr))
    );
    assert_eq!(
        enthalpy_route(VaporModel::IdealGas, LiquidModel::Cubic(pr), PhaseId::Vapor),
        Ok(EnthalpyRoute::IdealGas)
    );
    assert_eq!(
        enthalpy_route(VaporModel::Virial, LiquidModel::IdealSolution, PhaseId::Vapor),
        Err(FlashSpecError::Unsupported { driver: FlashDriver::PhaseEnthalpy })
    );
    assert_eq!(
        enthalpy_route(VaporModel::Virial, LiquidModel::Activity(ActivityModel::Nrtl), PhaseId::Liquid),
        Ok(EnthalpyRoute::CondensedLiquid(Some(ActivityModel::Nrtl)))
    );
    assert_eq!(
        enthalpy_route(VaporModel::IdealGas, LiquidModel::IdealSolution, PhaseId::Liquid),
        Ok(EnthalpyRoute::CondensedLiquid(None))
    );
    assert_eq!(
        enthalpy_route(VaporModel::IdealGas, LiquidModel::ChaoSeader, PhaseId::Liquid),
        Ok(EnthalpyRoute::CondensedLiquid(None))
    );
}

#[test]
fn saturation_model_override_or_own() {
    let overrides = vec![SatPressureModel::Riedel];
    assert_eq!(select_sat_model(&overrides, 0, SatPressureModel::Antoine), SatPressureModel::Riedel);
    assert_eq!(select_sat_model(&overrides, 1, SatPressureModel::Antoine), SatPressureModel::Antoine);
    assert_eq!(select_sat_model(&vec![], 0, SatPressureModel::Muller), SatPressureModel::Muller);
}

#[test]
fn pure_parameter_needs_follow_eos_and_rule() {
    assert_eq!(
        pure_param_needs(CubicEos::PatelTejaUSB, MixingRule::WongSandler),
        PureParamNeeds { c_parameter: true, sqrt_a: false, sqrt_b: true }
    );
    assert_eq!(
        pure_param_needs(CubicEos::SchmidtWenzel, MixingRule::MHV1),
        PureParamNeeds { c_parameter: false, sqrt_a: true, sqrt_b: false }
    );
    assert_eq!(
        pure_param_needs(CubicEos::PR1976, MixingRule::IIVDW),
        PureParamNeeds { c_parameter: false, sqrt_a: true, sqrt_b: false }
    );
}

#[test]
fn jacobian_rebuild_schedule() {
    // Cadence 3: two rank-one updates, then a rebuild.
    let mut count = 0;
    let mut seen = vec![];
    for _ in 0..6 {
        let (u, c) = next_jacobian_update(count, 3, false);
        seen.push(u);
        count = c;
    }
    assert_eq!(seen, vec![JacobianUpdate::RankOne, JacobianUpdate::RankOne, JacobianUpdate::Refresh, JacobianUpdate::RankOne, JacobianUpdate::RankOne, JacobianUpdate::Refresh]);
    // A vanishing step forces a rebuild; cadence 0 never rebuilds on schedule.
    assert_eq!(next_jacobian_update(0, 3, true), (JacobianUpdate::Refresh, 0));
    assert_eq!(next_jacobian_update(41, 0, false), (JacobianUpdate::RankOne, 42));
    assert_eq!(next_jacobian_update(0, 1, false), (JacobianUpdate::Refresh, 0));
}

#[test]
fn acceleration_every_fifth_iteration() {
    let due: Vec<usize> = (0..15).filter(|&i| acceleration_due(i, true)).collect();
    assert_eq!(due, vec![4, 9, 14]);
    assert!(!acceleration_due(4, false));
}

#[test]
fn classical_rules_ignore_the_activity_model() {
    for rule in [MixingRule::Classical, MixingRule::IVDW, MixingRule::IIVDW, MixingRule::SchmidtWenzelC] {
        for n in [1usize, 2] {
            let with = validate(&shape(CubicEos::SchmidtWenzel, rule, true), n);
            let without = validate(&shape(CubicEos::SchmidtWenzel, rule, false), n);
            assert_eq!(with, without);
        }
    }
}
