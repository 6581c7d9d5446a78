use vle_thermo::activity::ActivityModel;
use vle_thermo::eos::{CubicEos, EosFamily, PhaseId};
use vle_thermo::liquid_volume::VolumeModel;
use vle_thermo::mixing::MixingRule;

#[test]
fn activity_discriminant_values_match_legacy() {
    assert_eq!(ActivityModel::VanLaar.code(), 21);
    assert_eq!(ActivityModel::Wilson.code(), 22);
    assert_eq!(ActivityModel::ScatchardHildebrand.code(), 23);
    assert_eq!(ActivityModel::Margules.code(), 24);
    assert_eq!(ActivityModel::IdealSolution.code(), 25);
    assert_eq!(ActivityModel::Nrtl.code(), 37);
}

#[test]
fn eos_discriminant_values_match_legacy() {
    assert_eq!(CubicEos::PR1976.code(), 0);
    assert_eq!(CubicEos::RKS1972.code(), 2);
    assert_eq!(CubicEos::PRSV1986.code(), 15);
    assert_eq!(CubicEos::PROL1998.code(), 18);
    assert_eq!(CubicEos::SchmidtWenzel.code(), 19);
    assert_eq!(CubicEos::PatelTeja.code(), 20);
    assert_eq!(CubicEos::PatelTejaUSB.code(), 21);
}

#[test]
fn three_parameter_detection() {
    assert!(!CubicEos::PR1976.is_three_parameter());
    assert!(!CubicEos::RKS1972.is_three_parameter());
    assert!(CubicEos::SchmidtWenzel.is_three_parameter());
    assert!(CubicEos::PatelTeja.is_three_parameter());
    assert!(CubicEos::PatelTejaUSB.is_three_parameter());
}

#[test]
fn vb6_mixing_rules_start_at_26() {
    assert_eq!(MixingRule::WongSandler.code(), 26);
    assert_eq!(MixingRule::Classical.code(), 33);
}

const ALL_EOS: [CubicEos; 22] = [
    CubicEos::PR1976,
    CubicEos::RK1949,
    CubicEos::RKS1972,
    CubicEos::VdW1870,
    CubicEos::PRL1997,
    CubicEos::RKSL1997,
    CubicEos::RKSGD1978,
    CubicEos::RP1978,
    CubicEos::Berth1899,
    CubicEos::VdWAda1984,
    CubicEos::VdWVald1989,
    CubicEos::RKSmn1980,
    CubicEos::RKSATmn1995,
    CubicEos::PRATmng1997,
    CubicEos::PRMmn1989,
    CubicEos::PRSV1986,
    CubicEos::VdWOL1998,
    CubicEos::RKOL1998,
    CubicEos::PROL1998,
    CubicEos::SchmidtWenzel,
    CubicEos::PatelTeja,
    CubicEos::PatelTejaUSB,
];

#[test]
fn eos_codes_count_up_from_zero_in_declaration_order() {
    for (i, e) in ALL_EOS.iter().enumerate() {
        assert_eq!(e.code(), i as i32);
    }
}

#[test]
fn three_parameter_variants_are_exactly_codes_19_to_21() {
    for e in ALL_EOS.iter() {
        assert_eq!(e.is_three_parameter(), (19..=21).contains(&e.code()));
    }
}

#[test]
fn family_constants_k1_k2_per_family() {
    assert_eq!(CubicEos::PR1976.family(), EosFamily::PengRobinson);
    assert_eq!(CubicEos::PRSV1986.family(), EosFamily::PengRobinson);
    assert_eq!(CubicEos::RKS1972.family(), EosFamily::RedlichKwong);
    assert_eq!(CubicEos::RK1949.family(), EosFamily::RedlichKwong);
    assert_eq!(CubicEos::VdWVald1989.family(), EosFamily::RedlichKwong);
    assert_eq!(CubicEos::VdW1870.family(), EosFamily::VanDerWaals);
    assert_eq!(CubicEos::Berth1899.family(), EosFamily::VanDerWaals);
    assert_eq!(CubicEos::PatelTeja.family(), EosFamily::ThreeParameter);
    assert_eq!((EosFamily::PengRobinson.k1(), EosFamily::PengRobinson.k2()), (2, -1));
    assert_eq!((EosFamily::RedlichKwong.k1(), EosFamily::RedlichKwong.k2()), (1, 0));
    assert_eq!((EosFamily::VanDerWaals.k1(), EosFamily::VanDerWaals.k2()), (0, 0));
    assert_eq!((EosFamily::ThreeParameter.k1(), EosFamily::ThreeParameter.k2()), (0, 0));
    assert!(EosFamily::VanDerWaals.has_double_root());
    assert!(!EosFamily::PengRobinson.has_double_root());
    assert!(!EosFamily::RedlichKwong.has_double_root());
}

#[test]
fn every_family_is_three_parameter_exactly_for_three_parameter_eos() {
    for e in ALL_EOS.iter() {
        assert_eq!(e.family() == EosFamily::ThreeParameter, e.is_three_parameter());
    }
}

#[test]
fn mixing_rule_codes_and_classes() {
    let rules = [
        MixingRule::WongSandler,
        MixingRule::HuronVidalOriginal,
        MixingRule::HuronVidalSimplified,
        MixingRule::MHV1,
        MixingRule::MHV2,
        MixingRule::IVDW,
        MixingRule::IIVDW,
        MixingRule::Classical,
        MixingRule::PatelTejaC,
        MixingRule::PatelTejaUSBC,
        MixingRule::SchmidtWenzelC,
    ];
    for (i, r) in rules.iter().enumerate() {
        assert_eq!(r.code(), 26 + i as i32);
        assert_eq!(r.is_ge_based(), i < 5);
        assert_eq!(r.is_c_parameter(), i >= 8);
    }
}

#[test]
fn model_code_spaces_overlap_only_at_21() {
    let models = [
        ActivityModel::IdealSolution,
        ActivityModel::VanLaar,
        ActivityModel::Wilson,
        ActivityModel::ScatchardHildebrand,
        ActivityModel::Margules,
        ActivityModel::Nrtl,
    ];
    for e in ALL_EOS.iter() {
        for a in models.iter() {
            let same = e.code() == a.code();
            assert_eq!(same, *e == CubicEos::PatelTejaUSB && *a == ActivityModel::VanLaar);
        }
    }
}

#[test]
fn phase_and_volume_model_codes() {
    assert_eq!(PhaseId::Vapor.code(), 0);
    assert_eq!(PhaseId::Liquid.code(), 1);
    assert_eq!(VolumeModel::Rackett.code(), 1);
    assert_eq!(VolumeModel::Thomson.code(), 2);
}
