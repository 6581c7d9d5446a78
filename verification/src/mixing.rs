//! Mixing rules for cubic equations of state and their integer codes.

use vstd::prelude::*;

verus! {

/// Mixing rule for combining pure-component EOS parameters.
///
/// Codes 26–33 are the a/b rules; 34–36 the C-parameter rules of the
/// three-parameter EOS.
#[derive(Debug, Clone, Copy, PartialEq, Eq, Hash, Structural)]
pub enum MixingRule {
    /// Wong-Sandler (excess-Gibbs based), code 26.
    WongSandler,
    /// Huron-Vidal original, code 27.
    HuronVidalOriginal,
    /// Huron-Vidal simplified, code 28.
    HuronVidalSimplified,
    /// Modified Huron-Vidal first order, code 29.
    MHV1,
    /// Modified Huron-Vidal second order, code 30.
    MHV2,
    /// Improved van der Waals one-fluid, code 31.
    IVDW,
    /// Improved van der Waals two-fluid, code 32.
    IIVDW,
    /// Classical one-fluid quadratic rule, code 33.
    Classical,
    /// Patel-Teja C-parameter rule (linear), code 34.
    PatelTejaC,
    /// Patel-Teja USB C-parameter rule (√B weighted), code 35.
    PatelTejaUSBC,
    /// Schmidt-Wenzel C-parameter rule (√A weighted), code 36.
    SchmidtWenzelC,
}

impl MixingRule {
    /// The integer code of the rule.
    pub open spec fn spec_code(self) -> int {
        match self {
            MixingRule::WongSandler => 26,
            MixingRule::HuronVidalOriginal => 27,
            MixingRule::HuronVidalSimplified => 28,
            MixingRule::MHV1 => 29,
            MixingRule::MHV2 => 30,
            MixingRule::IVDW => 31,
            MixingRule::IIVDW => 32,
            MixingRule::Classical => 33,
            MixingRule::PatelTejaC => 34,
            MixingRule::PatelTejaUSBC => 35,
            MixingRule::SchmidtWenzelC => 36,
        }
    }

    /// Returns the integer code of the rule (26–36).
    pub fn code(&self) -> (c: i32)
        ensures
            c == self.spec_code(),
    {
        match self {
            MixingRule::WongSandler => 26,
            MixingRule::HuronVidalOriginal => 27,
            MixingRule::HuronVidalSimplified => 28,
            MixingRule::MHV1 => 29,
            MixingRule::MHV2 => 30,
            MixingRule::IVDW => 31,
            MixingRule::IIVDW => 32,
            MixingRule::Classical => 33,
            MixingRule::PatelTejaC => 34,
            MixingRule::PatelTejaUSBC => 35,
            MixingRule::SchmidtWenzelC => 36,
        }
    }

    /// Whether the rule takes its mixture `a` from an excess-Gibbs
    /// (activity) model.
    pub open spec fn spec_is_ge_based(self) -> bool {
        ||| self is WongSandler
        ||| self is HuronVidalOriginal
        ||| self is HuronVidalSimplified
        ||| self is MHV1
        ||| self is MHV2
    }

    /// Returns `true` for the excess-Gibbs based rules (Wong-Sandler,
    /// both Huron-Vidal forms, MHV1, MHV2), which need an activity model.
    pub fn is_ge_based(&self) -> (b: bool)
        ensures
            b == self.spec_is_ge_based(),
    {
        match self {
            MixingRule::WongSandler | MixingRule::HuronVidalOriginal
            | MixingRule::HuronVidalSimplified | MixingRule::MHV1 | MixingRule::MHV2 => true,
            _ => false,
        }
    }

    /// Whether the rule mixes the third (C) parameter only.
    pub open spec fn spec_is_c_parameter(self) -> bool {
        ||| self is PatelTejaC
        ||| self is PatelTejaUSBC
        ||| self is SchmidtWenzelC
    }

    /// Returns `true` for the C-parameter rules, which cannot serve as the
    /// a/b rule of a mixture.
    pub fn is_c_parameter(&self) -> (b: bool)
        ensures
            b == self.spec_is_c_parameter(),
    {
        match self {
            MixingRule::PatelTejaC | MixingRule::PatelTejaUSBC | MixingRule::SchmidtWenzelC => true,
            _ => false,
        }
    }
}

/// Two mixing rules with the same code are the same rule.
pub proof fn lemma_mixing_code_injective(a: MixingRule, b: MixingRule)
    requires
        a.spec_code() == b.spec_code(),
    ensures
        a == b,
{
}

/// The C-parameter rules are exactly the codes 34–36, and the
/// excess-Gibbs rules exactly the codes 26–30.
pub proof fn lemma_rule_classes_by_code(r: MixingRule)
    ensures
        26 <= r.spec_code() <= 36,
        r.spec_is_c_parameter() <==> 34 <= r.spec_code() <= 36,
        r.spec_is_ge_based() <==> 26 <= r.spec_code() <= 30,
{
}

} // verus!
