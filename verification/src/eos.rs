//! Cubic equation-of-state variants, their integer codes, their
//! parameter families, and the phase/model selectors built on them.
//!
//! A cubic EOS writes `P = R·T/(V − b) − a·α(T)/(V² + k1·b·V + k2·b²)`.
//! Two-parameter variants share one of three denominator families
//! (Peng-Robinson, Redlich-Kwong-Soave, van der Waals); the three-parameter
//! variants (Schmidt-Wenzel, Patel-Teja, Patel-Teja USB) carry their own
//! third constant and are handled separately by every consumer.

use vstd::prelude::*;

use crate::activity::ActivityModel;

verus! {

/// Cubic equation of state model selection.
///
/// Each variant has a fixed integer code (see [`CubicEos::code`]):
/// two-parameter variants use 0–18, three-parameter variants 19–21.
#[derive(Debug, Clone, Copy, PartialEq, Eq, Hash, Structural)]
pub enum CubicEos {
    /// Peng-Robinson (1976), code 0.
    PR1976,
    /// Redlich-Kwong (1949), code 1.
    RK1949,
    /// Soave-Redlich-Kwong (1972), code 2.
    RKS1972,
    /// van der Waals (1870), code 3.
    VdW1870,
    /// Peng-Robinson-Lim (1997), code 4.
    PRL1997,
    /// RKS-Lim (1997), code 5.
    RKSL1997,
    /// RKS-Graboski-Daubert (1978), code 6.
    RKSGD1978,
    /// Redlich-Prausnitz (1978), code 7.
    RP1978,
    /// Berthelot (1899), code 8.
    Berth1899,
    /// van der Waals-Adachi (1984), code 9.
    VdWAda1984,
    /// van der Waals-Valderrama (1989), code 10.
    VdWVald1989,
    /// RKS-Mathias-Naumann (1980), code 11.
    RKSmn1980,
    /// RKS-Adachi-Tagawa-Mathias-Naumann (1995), code 12.
    RKSATmn1995,
    /// PR-Adachi-Tagawa-Mathias-Naumann-Gasem (1997), code 13.
    PRATmng1997,
    /// PR-Mathias-Massih-Naumann (1989), code 14.
    PRMmn1989,
    /// Peng-Robinson-Stryjek-Vera (1986), code 15.
    PRSV1986,
    /// van der Waals-OL (1998), code 16.
    VdWOL1998,
    /// Redlich-Kwong-OL (1998), code 17.
    RKOL1998,
    /// Peng-Robinson-OL (1998), code 18.
    PROL1998,
    /// Schmidt-Wenzel, three-parameter, code 19.
    SchmidtWenzel,
    /// Patel-Teja, three-parameter, code 20.
    PatelTeja,
    /// Patel-Teja with universal saturation behaviour, three-parameter, code 21.
    PatelTejaUSB,
}

/// The attractive-term denominator family of a cubic EOS.
#[derive(Debug, Clone, Copy, PartialEq, Eq, Hash, Structural)]
pub enum EosFamily {
    /// `k1 = 2, k2 = −1`: denominator `V² + 2bV − b²`.
    PengRobinson,
    /// `k1 = 1, k2 = 0`: denominator `V² + bV`.
    RedlichKwong,
    /// `k1 = k2 = 0`: denominator `V²`.
    VanDerWaals,
    /// Three-parameter EOS: no two-parameter family constants apply
    /// (both are reported as 0).
    ThreeParameter,
}

impl CubicEos {
    /// The integer code of the variant.
    pub open spec fn spec_code(self) -> int {
        match self {
            CubicEos::PR1976 => 0,
            CubicEos::RK1949 => 1,
            CubicEos::RKS1972 => 2,
            CubicEos::VdW1870 => 3,
            CubicEos::PRL1997 => 4,
            CubicEos::RKSL1997 => 5,
            CubicEos::RKSGD1978 => 6,
            CubicEos::RP1978 => 7,
            CubicEos::Berth1899 => 8,
            CubicEos::VdWAda1984 => 9,
            CubicEos::VdWVald1989 => 10,
            CubicEos::RKSmn1980 => 11,
            CubicEos::RKSATmn1995 => 12,
            CubicEos::PRATmng1997 => 13,
            CubicEos::PRMmn1989 => 14,
            CubicEos::PRSV1986 => 15,
            CubicEos::VdWOL1998 => 16,
            CubicEos::RKOL1998 => 17,
            CubicEos::PROL1998 => 18,
            CubicEos::SchmidtWenzel => 19,
            CubicEos::PatelTeja => 20,
            CubicEos::PatelTejaUSB => 21,
        }
    }

    /// Returns the integer code of the variant (0–21).
    pub fn code(&self) -> (c: i32)
        ensures
            c == self.spec_code(),
    {
        match self {
            CubicEos::PR1976 => 0,
            CubicEos::RK1949 => 1,
            CubicEos::RKS1972 => 2,
            CubicEos::VdW1870 => 3,
            CubicEos::PRL1997 => 4,
            CubicEos::RKSL1997 => 5,
            CubicEos::RKSGD1978 => 6,
            CubicEos::RP1978 => 7,
            CubicEos::Berth1899 => 8,
            CubicEos::VdWAda1984 => 9,
            CubicEos::VdWVald1989 => 10,
            CubicEos::RKSmn1980 => 11,
            CubicEos::RKSATmn1995 => 12,
            CubicEos::PRATmng1997 => 13,
            CubicEos::PRMmn1989 => 14,
            CubicEos::PRSV1986 => 15,
            CubicEos::VdWOL1998 => 16,
            CubicEos::RKOL1998 => 17,
            CubicEos::PROL1998 => 18,
            CubicEos::SchmidtWenzel => 19,
            CubicEos::PatelTeja => 20,
            CubicEos::PatelTejaUSB => 21,
        }
    }

    /// Whether the variant is one of the three-parameter EOS.
    pub open spec fn spec_is_three_parameter(self) -> bool {
        ||| self is SchmidtWenzel
        ||| self is PatelTeja
        ||| self is PatelTejaUSB
    }

    /// Returns `true` if this is a three-parameter EOS requiring a
    /// C-parameter mixing rule in addition to the standard a, b mixing.
    pub fn is_three_parameter(&self) -> (b: bool)
        ensures
            b == self.spec_is_three_parameter(),
    {
        match self {
            CubicEos::SchmidtWenzel | CubicEos::PatelTeja | CubicEos::PatelTejaUSB => true,
            _ => false,
        }
    }

    /// The denominator family of the variant.
    pub open spec fn spec_family(self) -> EosFamily {
        match self {
            CubicEos::PR1976 | CubicEos::RP1978 | CubicEos::PRL1997 | CubicEos::PRATmng1997
            | CubicEos::PRSV1986 | CubicEos::PROL1998 | CubicEos::PRMmn1989 => EosFamily::PengRobinson,
            CubicEos::RKS1972 | CubicEos::RKSL1997 | CubicEos::RKSGD1978 | CubicEos::RK1949
            | CubicEos::VdWVald1989 | CubicEos::RKSATmn1995 | CubicEos::RKOL1998
            | CubicEos::RKSmn1980 => EosFamily::RedlichKwong,
            CubicEos::VdW1870 | CubicEos::Berth1899 | CubicEos::VdWAda1984
            | CubicEos::VdWOL1998 => EosFamily::VanDerWaals,
            CubicEos::SchmidtWenzel | CubicEos::PatelTeja
            | CubicEos::PatelTejaUSB => EosFamily::ThreeParameter,
        }
    }

    /// Returns the attractive-term denominator family of the variant; the
    /// family fixes the `k1`, `k2` constants of the Abbott form.
    pub fn family(&self) -> (f: EosFamily)
        ensures
            f == self.spec_family(),
    {
        match self {
            CubicEos::PR1976 | CubicEos::RP1978 | CubicEos::PRL1997 | CubicEos::PRATmng1997
            | CubicEos::PRSV1986 | CubicEos::PROL1998 | CubicEos::PRMmn1989 => EosFamily::PengRobinson,
            CubicEos::RKS1972 | CubicEos::RKSL1997 | CubicEos::RKSGD1978 | CubicEos::RK1949
            | CubicEos::VdWVald1989 | CubicEos::RKSATmn1995 | CubicEos::RKOL1998
            | CubicEos::RKSmn1980 => EosFamily::RedlichKwong,
            CubicEos::VdW1870 | CubicEos::Berth1899 | CubicEos::VdWAda1984
            | CubicEos::VdWOL1998 => EosFamily::VanDerWaals,
            CubicEos::SchmidtWenzel | CubicEos::PatelTeja
            | CubicEos::PatelTejaUSB => EosFamily::ThreeParameter,
        }
    }
}

impl EosFamily {
    /// `k1` of the family: the coefficient of `b·V` in the denominator.
    pub open spec fn spec_k1(self) -> int {
        match self {
            EosFamily::PengRobinson => 2,
            EosFamily::RedlichKwong => 1,
            EosFamily::VanDerWaals => 0,
            EosFamily::ThreeParameter => 0,
        }
    }

    /// `k2` of the family: the coefficient of `b²` in the denominator.
    pub open spec fn spec_k2(self) -> int {
        match self {
            EosFamily::PengRobinson => -1,
            EosFamily::RedlichKwong => 0,
            EosFamily::VanDerWaals => 0,
            EosFamily::ThreeParameter => 0,
        }
    }

    /// Returns `k1` of the family.
    pub fn k1(&self) -> (k: i32)
        ensures
            k == self.spec_k1(),
    {
        match self {
            EosFamily::PengRobinson => 2,
            EosFamily::RedlichKwong => 1,
            EosFamily::VanDerWaals => 0,
            EosFamily::ThreeParameter => 0,
        }
    }

    /// Returns `k2` of the family.
    pub fn k2(&self) -> (k: i32)
        ensures
            k == self.spec_k2(),
    {
        match self {
            EosFamily::PengRobinson => -1,
            EosFamily::RedlichKwong => 0,
            EosFamily::VanDerWaals => 0,
            EosFamily::ThreeParameter => 0,
        }
    }

    /// Returns `true` when the denominator has a double root
    /// (`k1² − 4·k2 = 0`), the degenerate case of the attractive integral
    /// that the van der Waals family and the three-parameter placeholder
    /// share.
    pub fn has_double_root(&self) -> (b: bool)
        ensures
            b == (self.spec_k1() * self.spec_k1() - 4 * self.spec_k2() == 0),
    {
        let k1: i32 = self.k1();
        let k2: i32 = self.k2();
        k1 * k1 - 4 * k2 == 0
    }
}

/// Vapor-phase model selection.
#[derive(Debug, Clone, Copy, PartialEq, Eq, Hash, Structural)]
pub enum VaporModel {
    /// Ideal gas (fugacity coefficient 1).
    IdealGas,
    /// Second virial equation.
    Virial,
    /// A cubic EOS.
    Cubic(CubicEos),
}

/// Liquid-phase model selection.
#[derive(Debug, Clone, Copy, PartialEq, Eq, Hash, Structural)]
pub enum LiquidModel {
    /// Ideal solution (Raoult's law).
    IdealSolution,
    /// A cubic EOS for both phases (the φ-φ approach).
    Cubic(CubicEos),
    /// An activity-coefficient model (the γ-φ approach).
    Activity(ActivityModel),
    /// The Chao-Seader liquid fugacity correlation.
    ChaoSeader,
}

/// Phase identifier used to select the liquid or vapor root of a cubic.
#[derive(Debug, Clone, Copy, PartialEq, Eq, Hash, Structural)]
pub enum PhaseId {
    /// The vapor root, code 0.
    Vapor,
    /// The liquid root, code 1.
    Liquid,
}

impl PhaseId {
    /// The integer code of the phase.
    pub open spec fn spec_code(self) -> int {
        match self {
            PhaseId::Vapor => 0,
            PhaseId::Liquid => 1,
        }
    }

    /// Returns the integer code of the phase (`Vapor = 0`, `Liquid = 1`).
    pub fn code(&self) -> (c: i32)
        ensures
            c == self.spec_code(),
    {
        match self {
            PhaseId::Vapor => 0,
            PhaseId::Liquid => 1,
        }
    }
}

/// Two EOS variants with the same code are the same variant.
pub proof fn lemma_eos_code_injective(a: CubicEos, b: CubicEos)
    requires
        a.spec_code() == b.spec_code(),
    ensures
        a == b,
{
}

/// Every EOS code lies in 0–21; the three-parameter variants are exactly
/// those with codes 19–21 and the two-parameter ones those with 0–18.
pub proof fn lemma_three_parameter_codes(e: CubicEos)
    ensures
        0 <= e.spec_code() <= 21,
        e.spec_is_three_parameter() <==> 19 <= e.spec_code() <= 21,
{
}

/// A variant belongs to the three-parameter family exactly when it is a
/// three-parameter EOS; every two-parameter family has `k1² − 4·k2 ≥ 0`.
pub proof fn lemma_family_matches_parameter_count(e: CubicEos)
    ensures
        (e.spec_family() == EosFamily::ThreeParameter) <==> e.spec_is_three_parameter(),
        e.spec_family().spec_k1() * e.spec_family().spec_k1() - 4 * e.spec_family().spec_k2() >= 0,
{
}

/// The denominator constants of each two-parameter variant: the
/// Peng-Robinson variants have `k1 = 2, k2 = −1` (denominator
/// `V² + 2bV − b²`), the Redlich-Kwong/Soave variants `k1 = 1, k2 = 0`
/// (`V² + bV`), the van der Waals variants `k1 = k2 = 0` (`V²`).
pub proof fn lemma_family_constants_by_variant(e: CubicEos)
    ensures
        (e == CubicEos::PR1976 || e == CubicEos::RP1978 || e == CubicEos::PRL1997 || e
            == CubicEos::PRATmng1997 || e == CubicEos::PRSV1986 || e == CubicEos::PROL1998 || e
            == CubicEos::PRMmn1989) <==> (e.spec_family() == EosFamily::PengRobinson),
        (e == CubicEos::RK1949 || e == CubicEos::RKS1972 || e == CubicEos::RKSL1997 || e
            == CubicEos::RKSGD1978 || e == CubicEos::VdWVald1989 || e == CubicEos::RKSmn1980 || e
            == CubicEos::RKSATmn1995 || e == CubicEos::RKOL1998) <==> (e.spec_family()
            == EosFamily::RedlichKwong),
        (e == CubicEos::VdW1870 || e == CubicEos::Berth1899 || e == CubicEos::VdWAda1984 || e
            == CubicEos::VdWOL1998) <==> (e.spec_family() == EosFamily::VanDerWaals),
        EosFamily::PengRobinson.spec_k1() == 2 && EosFamily::PengRobinson.spec_k2() == -1,
        EosFamily::RedlichKwong.spec_k1() == 1 && EosFamily::RedlichKwong.spec_k2() == 0,
        EosFamily::VanDerWaals.spec_k1() == 0 && EosFamily::VanDerWaals.spec_k2() == 0,
{
}

} // verus!
