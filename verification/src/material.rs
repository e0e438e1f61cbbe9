use vstd::prelude::*;

verus! {

/// Survival cycles are credited up to twice the required count.
pub const CYCLE_RATIO_CAP: u64 = 2;

/// A survival-cycle ratio `num / den`, held exactly as two counts.
#[derive(Clone, Copy, Debug, PartialEq, Eq, Structural)]
pub struct CycleRatio {
    pub num: u64,
    pub den: u64,
}

impl CycleRatio {
    /// The ratio lies in the material envelope `[0, CYCLE_RATIO_CAP]` and
    /// has a nonzero denominator.
    pub open spec fn within_envelope(self) -> bool {
        self.den > 0 && self.num <= CYCLE_RATIO_CAP * self.den
    }

    /// `self <= other` as rationals (both denominators positive).
    pub open spec fn le(self, other: CycleRatio) -> bool {
        self.num * other.den <= other.num * self.den
    }
}

/// The credited ratio of `survived` to `required` cycles: zero when nothing is
/// required, capped at `CYCLE_RATIO_CAP`, and otherwise the plain quotient.
pub open spec fn spec_clamped_cycle_ratio(survived: nat, required: nat) -> CycleRatio {
    if required == 0 {
        CycleRatio { num: 0, den: 1 }
    } else if survived >= CYCLE_RATIO_CAP * required {
        CycleRatio { num: CYCLE_RATIO_CAP, den: 1 }
    } else {
        CycleRatio { num: survived as u64, den: required as u64 }
    }
}

/// Computes the capped survival ratio of a cycle test (rat-bite or fatigue).
///
/// A test with no required cycles scores zero; otherwise the ratio
/// `survived / required` is capped at `CYCLE_RATIO_CAP`.
pub fn clamped_cycle_ratio(survived: u64, required: u64) -> (res: CycleRatio)
    ensures
        res == spec_clamped_cycle_ratio(survived as nat, required as nat),
        required == 0 ==> res.num == 0 && res.den == 1,
        required > 0 && survived >= 2 * required ==> res.num == 2 && res.den == 1,
        required > 0 && survived < 2 * required ==> res.num == survived && res.den == required,
{
    if required == 0 {
        CycleRatio { num: 0, den: 1 }
    } else if survived / CYCLE_RATIO_CAP >= required {
        CycleRatio { num: CYCLE_RATIO_CAP, den: 1 }
    } else {
        CycleRatio { num: survived, den: required }
    }
}

/// The credited ratio is `min(survived / required, 2)` as a rational, and zero
/// when nothing is required: `num * required == min(survived, 2 * required) * den`
/// with a positive denominator.
pub proof fn lemma_cycle_ratio_is_capped_quotient(survived: u64, required: u64)
    ensures
        ({
            let r = spec_clamped_cycle_ratio(survived as nat, required as nat);
            &&& r.den > 0
            &&& required == 0 ==> r.num == 0
            &&& required > 0 && survived < 2 * required ==> r.num * required == survived * r.den
            &&& required > 0 && survived >= 2 * required ==> r.num * required == 2 * required
                * r.den
            &&& required > 0 && survived >= 2 * required ==> r.num == 2 * r.den
        }),
{
    let r = spec_clamped_cycle_ratio(survived as nat, required as nat);
    if required > 0 && survived < 2 * required {
        assert(r.num * required == survived * r.den) by (nonlinear_arith)
            requires
                r.num == survived,
                r.den == required,
        ;
    }
}

/// Every credited cycle ratio lies within the material envelope `[0, 2]`.
pub proof fn lemma_cycle_ratio_within_envelope(survived: u64, required: u64)
    ensures
        spec_clamped_cycle_ratio(survived as nat, required as nat).within_envelope(),
{
}

/// Surviving more cycles never lowers the credited ratio.
pub proof fn lemma_cycle_ratio_monotonic(survived1: u64, survived2: u64, required: u64)
    requires
        survived1 <= survived2,
    ensures
        spec_clamped_cycle_ratio(survived1 as nat, required as nat).le(
            spec_clamped_cycle_ratio(survived2 as nat, required as nat),
        ),
{
    let r1 = spec_clamped_cycle_ratio(survived1 as nat, required as nat);
    let r2 = spec_clamped_cycle_ratio(survived2 as nat, required as nat);
    if required > 0 && survived2 < 2 * required {
        assert(survived1 * required <= survived2 * required) by (nonlinear_arith)
            requires
                survived1 <= survived2,
        ;
    } else if required > 0 && survived1 < 2 * required {
        assert(survived1 * 1 <= 2 * required);
    }
}

} // verus!
