//! Admission of a mixture model: the size and pairing checks that every
//! mixture-level evaluation performs before any arithmetic.

use vstd::prelude::*;

use crate::eos::CubicEos;
use crate::mixing::MixingRule;

verus! {

/// What admission of a mixture model reads: the EOS, the a/b mixing rule,
/// whether an activity model is coupled in, the number of components, and
/// the row lengths of the kij matrix (an empty list stands for the all-zero
/// matrix).
#[derive(Debug, Clone)]
pub struct MixtureShape {
    /// Cubic EOS applied to the mixture.
    pub eos: CubicEos,
    /// The a/b mixing rule.
    pub rule: MixingRule,
    /// Whether an activity model (for the excess-Gibbs rules) is supplied.
    pub has_ge: bool,
    /// Number of components.
    pub n_components: usize,
    /// Length of each row of the kij matrix, one entry per row.
    pub kij_rows: Vec<usize>,
}

/// Why a mixture model was refused.
#[derive(Debug, Clone, PartialEq, Eq, Structural)]
pub enum MixSpecError {
    /// The composition does not have one entry per component.
    CompositionLength { components: usize, composition: usize },
    /// The kij matrix is neither empty nor `n × n`.
    KijShape { components: usize },
    /// An excess-Gibbs rule was chosen without an activity model.
    MissingActivityModel { rule: MixingRule },
    /// An excess-Gibbs rule was paired with a three-parameter EOS.
    GeRuleWithThreeParameterEos { rule: MixingRule, eos: CubicEos },
    /// A C-parameter rule was passed as the a/b rule.
    CParameterRuleAsAbRule { rule: MixingRule },
}

/// The kij matrix is acceptable: empty, or square with one row of length
/// `n` per component.
pub open spec fn kij_shape_ok(rows: Seq<usize>, n: nat) -> bool {
    rows.len() == 0 || (rows.len() == n && forall|i: int| 0 <= i < rows.len() ==> rows[i] == n)
}

/// The admission verdict for a mixture of `composition` mole fractions:
/// the checks in order, the first failing one deciding the error.
pub open spec fn mixture_admission(shape: MixtureShape, composition: nat) -> Result<(), MixSpecError> {
    let n: usize = shape.n_components;
    if n != composition {
        Err(MixSpecError::CompositionLength { components: n, composition: composition as usize })
    } else if !kij_shape_ok(shape.kij_rows@, n as nat) {
        Err(MixSpecError::KijShape { components: n })
    } else if shape.rule.spec_is_ge_based() && !shape.has_ge {
        Err(MixSpecError::MissingActivityModel { rule: shape.rule })
    } else if shape.rule.spec_is_ge_based() && shape.eos.spec_is_three_parameter() {
        Err(MixSpecError::GeRuleWithThreeParameterEos { rule: shape.rule, eos: shape.eos })
    } else if shape.rule.spec_is_c_parameter() {
        Err(MixSpecError::CParameterRuleAsAbRule { rule: shape.rule })
    } else {
        Ok(())
    }
}

/// Checks whether the kij matrix with the given row lengths is empty or
/// `n × n`.
pub fn kij_shape_is_valid(rows: &Vec<usize>, n: usize) -> (ok: bool)
    ensures
        ok == kij_shape_ok(rows@, n as nat),
{
    if rows.len() == 0 {
        return true;
    }
    if rows.len() != n {
        return false;
    }
    let mut i: usize = 0;
    while i < rows.len()
        invariant
            i <= rows.len(),
            rows.len() == n,
            forall|j: int| 0 <= j < i ==> rows@[j] == n,
        decreases rows.len() - i,
    {
        if rows[i] != n {
            return false;
        }
        i = i + 1;
    }
    true
}

/// Validates a mixture model against a composition of `composition`
/// entries: one mole fraction per component, an empty or `n × n` kij
/// matrix, an activity model for every excess-Gibbs rule, no excess-Gibbs
/// rule with a three-parameter EOS, and no C-parameter rule as the a/b rule.
pub fn validate(shape: &MixtureShape, composition: usize) -> (r: Result<(), MixSpecError>)
    ensures
        r == mixture_admission(*shape, composition as nat),
{
    let n: usize = shape.n_components;
    if n != composition {
        return Err(MixSpecError::CompositionLength { components: n, composition });
    }
    if !kij_shape_is_valid(&shape.kij_rows, n) {
        return Err(MixSpecError::KijShape { components: n });
    }
    let ge_based = shape.rule.is_ge_based();
    if ge_based && !shape.has_ge {
        return Err(MixSpecError::MissingActivityModel { rule: shape.rule });
    }
    if ge_based && shape.eos.is_three_parameter() {
        return Err(MixSpecError::GeRuleWithThreeParameterEos { rule: shape.rule, eos: shape.eos });
    }
    if shape.rule.is_c_parameter() {
        return Err(MixSpecError::CParameterRuleAsAbRule { rule: shape.rule });
    }
    Ok(())
}

/// Which per-component quantities a mixture evaluation precomputes beside
/// the dimensionless A and B of every component.
#[derive(Debug, Clone, Copy, PartialEq, Eq, Structural)]
pub struct PureParamNeeds {
    /// The third parameter Cᵢ (the Patel-Teja family).
    pub c_parameter: bool,
    /// √Aᵢ (the rules with √(AᵢAⱼ) cross terms, and the Schmidt-Wenzel C
    /// rule).
    pub sqrt_a: bool,
    /// √Bᵢ (the √B-weighted C rule of Patel-Teja USB).
    pub sqrt_b: bool,
}

/// Decides which per-component quantities an evaluation with `eos` and the
/// a/b rule `rule` needs: Cᵢ for Patel-Teja and Patel-Teja USB; √Aᵢ for the
/// Classical, IVDW and IIVDW rules and for Schmidt-Wenzel; √Bᵢ for
/// Patel-Teja USB only.
pub fn pure_param_needs(eos: CubicEos, rule: MixingRule) -> (n: PureParamNeeds)
    ensures
        n.c_parameter == (eos is PatelTeja || eos is PatelTejaUSB),
        n.sqrt_a == (rule is Classical || rule is IVDW || rule is IIVDW || eos is SchmidtWenzel),
        n.sqrt_b == (eos is PatelTejaUSB),
{
    let c_parameter = match eos {
        CubicEos::PatelTeja | CubicEos::PatelTejaUSB => true,
        _ => false,
    };
    let cross_terms = match rule {
        MixingRule::Classical | MixingRule::IVDW | MixingRule::IIVDW => true,
        _ => false,
    };
    let sqrt_a = cross_terms || eos == CubicEos::SchmidtWenzel;
    let sqrt_b = eos == CubicEos::PatelTejaUSB;
    PureParamNeeds { c_parameter, sqrt_a, sqrt_b }
}

/// An admitted mixture model never uses a C-parameter rule as its a/b rule,
/// never pairs an excess-Gibbs rule with a three-parameter EOS, and always
/// supplies an activity model to an excess-Gibbs rule.
pub proof fn lemma_admitted_pairings(shape: MixtureShape, composition: nat)
    requires
        mixture_admission(shape, composition) is Ok,
    ensures
        !shape.rule.spec_is_c_parameter(),
        shape.rule.spec_is_ge_based() ==> shape.has_ge && !shape.eos.spec_is_three_parameter(),
        shape.n_components == composition,
{
}

/// Admission does not depend on the activity model when the rule is a
/// classical (non excess-Gibbs) one.
pub proof fn lemma_classical_rules_ignore_activity(shape: MixtureShape, composition: nat)
    requires
        !shape.rule.spec_is_ge_based(),
    ensures
        mixture_admission(shape, composition) == mixture_admission(
            (MixtureShape { has_ge: !shape.has_ge, ..shape }),
            composition,
        ),
{
}

/// Admission is complete: a mixture whose composition has one entry per
/// component and whose kij matrix is empty or `n × n` is admitted with any
/// EOS when its a/b rule is Classical, IVDW or IIVDW, and with any
/// two-parameter EOS when its rule is an excess-Gibbs rule (Wong-Sandler,
/// Huron-Vidal, MHV1, MHV2) and an activity model is supplied.
pub proof fn lemma_admission_complete(shape: MixtureShape, composition: nat)
    requires
        shape.n_components == composition,
        shape.kij_rows@.len() == 0 || (shape.kij_rows@.len() == composition && forall|i: int|
            0 <= i < shape.kij_rows@.len() ==> shape.kij_rows@[i] == composition),
        (shape.rule == MixingRule::Classical || shape.rule == MixingRule::IVDW || shape.rule
            == MixingRule::IIVDW) || ((shape.rule == MixingRule::WongSandler || shape.rule
            == MixingRule::HuronVidalOriginal || shape.rule == MixingRule::HuronVidalSimplified
            || shape.rule == MixingRule::MHV1 || shape.rule == MixingRule::MHV2) && shape.has_ge
            && shape.eos != CubicEos::SchmidtWenzel && shape.eos != CubicEos::PatelTeja
            && shape.eos != CubicEos::PatelTejaUSB),
    ensures
        mixture_admission(shape, composition) == Ok::<(), MixSpecError>(()),
{
}

} // verus!
