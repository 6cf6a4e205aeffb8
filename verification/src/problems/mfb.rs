//! The problems of a generic test suite for evolutionary multi-fidelity optimization:
//! the choice of fidelity, the cost model and the validation of the recipe.
use vstd::prelude::*;
use vstd::string::StringExecFns;
use crate::error::ErrorKind;
use crate::text::{decimal, u64_to_string};

verus! {

/// Recipe of `MfbProblem`.
#[derive(Debug, Clone, Copy)]
pub struct MfbProblemRecipe {
    /// Number of the problem, from 1 to 13.
    pub problem_number: usize,
    /// Number of dimensions.
    pub dimensions: usize,
    /// Number of fidelity levels, at most 10 000.
    pub fidelity_levels: u64,
}

/// The modified Rastrigin function of the given dimension.
#[derive(Debug, Clone, Copy, PartialEq, Eq, Structural)]
pub struct ModifiedRastrigin {
    pub dimensions: usize,
}

/// How the cost of an evaluation grows with its fidelity.
#[derive(Debug, Clone, Copy, PartialEq, Eq, Structural)]
pub enum Cost {
    Linear,
    NonLinear,
}

/// The kind of error that a low fidelity adds to the objective.
#[derive(Debug, Clone, Copy, PartialEq, Eq, Structural)]
pub enum FidelityError {
    Resolution1,
    Resolution2,
    Resolution3,
    Resolution4,
    Stochastic1,
    Stochastic2,
    Stochastic3,
    Stochastic4,
    Instability1,
    Instability2,
}

/// One of the thirteen problems.
#[derive(Debug, Clone, Copy, PartialEq, Eq, Structural)]
pub struct Mfb {
    pub no: usize,
    pub f: ModifiedRastrigin,
    pub e: FidelityError,
    pub c: Cost,
}

/// MFB problem.
#[derive(Debug, Clone, Copy)]
pub struct MfbProblem {
    pub fidelity_levels: u64,
    pub mfb: Mfb,
}

/// Evaluator of `MfbProblem`.
#[derive(Debug, Clone, Copy)]
pub struct MfbEvaluator {
    pub mfb: Mfb,
    pub fidelity_levels: u64,
}

/// The error kind and cost model of problem `no`.
pub open spec fn mfb_kinds(no: usize) -> (FidelityError, Cost) {
    if no == 1 { (FidelityError::Resolution1, Cost::Linear) }
    else if no == 2 { (FidelityError::Resolution2, Cost::Linear) }
    else if no == 3 { (FidelityError::Resolution3, Cost::NonLinear) }
    else if no == 4 { (FidelityError::Resolution1, Cost::NonLinear) }
    else if no == 5 { (FidelityError::Resolution2, Cost::NonLinear) }
    else if no == 6 { (FidelityError::Resolution1, Cost::Linear) }
    else if no == 7 { (FidelityError::Resolution4, Cost::Linear) }
    else if no == 8 { (FidelityError::Stochastic1, Cost::Linear) }
    else if no == 9 { (FidelityError::Stochastic2, Cost::NonLinear) }
    else if no == 10 { (FidelityError::Stochastic3, Cost::Linear) }
    else if no == 11 { (FidelityError::Stochastic4, Cost::NonLinear) }
    else if no == 12 { (FidelityError::Instability1, Cost::Linear) }
    else { (FidelityError::Instability2, Cost::NonLinear) }
}

/// The fidelities that problem `no` evaluates at, in increasing order.
pub open spec fn mfb_phis(no: usize) -> Seq<u64> {
    if no == 4 {
        Seq::new(11, |i: int| (i * 1000) as u64)
    } else if no == 5 {
        seq![1000u64, 3000, 10000]
    } else if no == 6 {
        seq![1000u64, 10000]
    } else {
        Seq::new(10001, |i: int| i as u64)
    }
}

/// `x` divided by `d`, rounded to the nearest integer (halves away from zero).
pub open spec fn round_div(x: nat, d: nat) -> nat
    recommends
        d > 0,
{
    (x + d / 2) / d
}

/// The cost of an evaluation at fidelity `phi`: `phi` when linear, else `(phi / 1000)^4`
/// rounded to the nearest integer, saturated at `u64::MAX`.
pub open spec fn cost_of(c: Cost, phi: u64) -> u64 {
    match c {
        Cost::Linear => phi,
        Cost::NonLinear => {
            let v = round_div((phi * phi * phi * phi) as nat, 1_000_000_000_000);
            if v > u64::MAX { u64::MAX } else { v as u64 }
        },
    }
}

/// The length of the longest prefix of `phis` whose costs are all within `max_cost`.
pub open spec fn affordable_prefix(c: Cost, phis: Seq<u64>, max_cost: u64) -> nat
    decreases phis.len(),
{
    if phis.len() == 0 {
        0
    } else if cost_of(c, phis[0]) <= max_cost {
        1 + affordable_prefix(c, phis.drop_first(), max_cost)
    } else {
        0
    }
}

/// The fidelity chosen for a budget: the last fidelity of the affordable prefix, or the
/// first fidelity when none is affordable.
pub open spec fn chosen_phi(c: Cost, phis: Seq<u64>, max_cost: u64) -> u64 {
    let k = affordable_prefix(c, phis, max_cost);
    if k > 0 { phis[k - 1] } else { phis[0] }
}

impl Cost {
    /// The cost of an evaluation at fidelity `phi`.
    pub fn cost(&self, phi: u64) -> (res: u64)
        ensures
            res == cost_of(*self, phi),
    {
        match self {
            Cost::Linear => phi,
            Cost::NonLinear => {
                if phi >= 0x1_0000_0000 {
                    proof {
                        let p = phi as nat;
                        assert(p * p >= 0x1_0000_0000 * 0x1_0000_0000) by (nonlinear_arith)
                            requires p >= 0x1_0000_0000;
                        assert(p * p * p * p >= 0x1_0000_0000_0000_0000 * 0x1_0000_0000_0000_0000) by (nonlinear_arith)
                            requires p * p >= 0x1_0000_0000_0000_0000;
                    }
                    u64::MAX
                } else {
                    let p = phi as u128;
                    proof {
                        assert(p * p < 0x1_0000_0000_0000_0000) by (nonlinear_arith)
                            requires p < 0x1_0000_0000;
                    }
                    let sq = p * p;
                    proof {
                        assert(sq * sq < 0x1_0000_0000_0000_0000 * 0x1_0000_0000_0000_0000) by (nonlinear_arith)
                            requires sq < 0x1_0000_0000_0000_0000;
                        assert(sq * sq == p * p * p * p) by (nonlinear_arith)
                            requires sq == p * p;
                    }
                    let fourth = sq * sq;
                    if fourth > u128::MAX - 500_000_000_000 {
                        u64::MAX
                    } else {
                        let v = (fourth + 500_000_000_000) / 1_000_000_000_000;
                        if v > u64::MAX as u128 {
                            u64::MAX
                        } else {
                            v as u64
                        }
                    }
                }
            },
        }
    }
}

impl MfbProblemRecipe {
    /// Creates the problem of the recipe.
    ///
    /// Fails with `InvalidInput` unless the problem number is from 1 to 13, the number of
    /// fidelity levels is from 1 to 10 000 and the number of dimensions is positive.
    pub fn create_problem(&self) -> (res: Result<MfbProblem, ErrorKind>)
        ensures
            match res {
                Ok(p) => 1 <= self.problem_number <= 13 && 1 <= self.fidelity_levels <= 10_000
                    && self.dimensions >= 1 && p.fidelity_levels == self.fidelity_levels
                    && p.mfb == mfb(self.dimensions, self.problem_number),
                Err(e) => e == ErrorKind::InvalidInput && !(1 <= self.problem_number <= 13
                    && 1 <= self.fidelity_levels <= 10_000 && self.dimensions >= 1),
            },
    {
        if !(1 <= self.problem_number && self.problem_number <= 13) {
            return Err(ErrorKind::InvalidInput);
        }
        if self.fidelity_levels > 10_000 {
            return Err(ErrorKind::InvalidInput);
        }
        if self.dimensions == 0 {
            return Err(ErrorKind::InvalidInput);
        }
        if self.fidelity_levels == 0 {
            return Err(ErrorKind::InvalidInput);
        }
        Ok(MfbProblem {
            fidelity_levels: self.fidelity_levels,
            mfb: Mfb::new(self.dimensions, self.problem_number),
        })
    }
}

/// The problem `no` in the given dimension.
pub open spec fn mfb(dimensions: usize, no: usize) -> Mfb {
    Mfb {
        no,
        f: ModifiedRastrigin { dimensions },
        e: mfb_kinds(no).0,
        c: mfb_kinds(no).1,
    }
}

/// The problems whose cost grows as the fourth power of the fidelity: 3, 4, 5, 9, 11 and
/// 13. The others (1, 2, 6, 7, 8, 10 and 12) cost their fidelity.
pub open spec fn nonlinear_cost_problem(no: usize) -> bool {
    no == 3 || no == 4 || no == 5 || no == 9 || no == 11 || no == 13
}

/// The error that the suite's table gives problem `no`: resolution errors for problems 1 to
/// 7 (1, 2, 3, then 1, 2, 1 and 4), stochastic errors 1 to 4 for problems 8 to 11, and
/// instability errors 1 and 2 for problems 12 and 13.
pub open spec fn suite_error(no: usize, e: FidelityError) -> bool {
    &&& (no == 1 || no == 4 || no == 6) <==> e == FidelityError::Resolution1
    &&& (no == 2 || no == 5) <==> e == FidelityError::Resolution2
    &&& no == 3 <==> e == FidelityError::Resolution3
    &&& no == 7 <==> e == FidelityError::Resolution4
    &&& no == 8 <==> e == FidelityError::Stochastic1
    &&& no == 9 <==> e == FidelityError::Stochastic2
    &&& no == 10 <==> e == FidelityError::Stochastic3
    &&& no == 11 <==> e == FidelityError::Stochastic4
    &&& no == 12 <==> e == FidelityError::Instability1
    &&& no == 13 <==> e == FidelityError::Instability2
}

/// Every problem of the suite has the cost model and the error of the suite's table: the
/// non-linear cost exactly for problems 3, 4, 5, 9, 11 and 13, and the linear one for the
/// rest.
pub proof fn lemma_suite_table(dimensions: usize, no: usize)
    requires
        1 <= no <= 13,
    ensures
        mfb(dimensions, no).c == Cost::NonLinear <==> nonlinear_cost_problem(no),
        mfb(dimensions, no).c == Cost::Linear <==> !nonlinear_cost_problem(no),
        suite_error(no, mfb(dimensions, no).e),
{
}

impl Mfb {
    /// Makes problem `no` (from 1 to 13) in the given dimension.
    pub fn new(dimensions: usize, no: usize) -> (res: Self)
        requires
            1 <= no <= 13,
        ensures
            res == mfb(dimensions, no),
            res.no == no,
            res.f.dimensions == dimensions,
            res.c == Cost::NonLinear <==> nonlinear_cost_problem(no),
            res.c == Cost::Linear <==> !nonlinear_cost_problem(no),
            suite_error(no, res.e),
    {
        let (e, c) = if no == 1 {
            (FidelityError::Resolution1, Cost::Linear)
        } else if no == 2 {
            (FidelityError::Resolution2, Cost::Linear)
        } else if no == 3 {
            (FidelityError::Resolution3, Cost::NonLinear)
        } else if no == 4 {
            (FidelityError::Resolution1, Cost::NonLinear)
        } else if no == 5 {
            (FidelityError::Resolution2, Cost::NonLinear)
        } else if no == 6 {
            (FidelityError::Resolution1, Cost::Linear)
        } else if no == 7 {
            (FidelityError::Resolution4, Cost::Linear)
        } else if no == 8 {
            (FidelityError::Stochastic1, Cost::Linear)
        } else if no == 9 {
            (FidelityError::Stochastic2, Cost::NonLinear)
        } else if no == 10 {
            (FidelityError::Stochastic3, Cost::Linear)
        } else if no == 11 {
            (FidelityError::Stochastic4, Cost::NonLinear)
        } else if no == 12 {
            (FidelityError::Instability1, Cost::Linear)
        } else {
            (FidelityError::Instability2, Cost::NonLinear)
        };
        Mfb { no, f: ModifiedRastrigin { dimensions }, e, c }
    }

    /// The fidelities this problem evaluates at, in increasing order.
    pub fn phis(&self) -> (res: Vec<u64>)
        ensures
            res@ == mfb_phis(self.no),
    {
        let mut res: Vec<u64> = Vec::new();
        if self.no == 4 {
            let mut i: u64 = 0;
            while i <= 10
                invariant
                    i <= 11,
                    res@ =~= Seq::new(i as nat, |k: int| (k * 1000) as u64),
                decreases 11 - i,
            {
                res.push(i * 1000);
                i = i + 1;
            }
        } else if self.no == 5 {
            res.push(1000);
            res.push(3000);
            res.push(10000);
            assert(res@ =~= seq![1000u64, 3000, 10000]);
        } else if self.no == 6 {
            res.push(1000);
            res.push(10000);
            assert(res@ =~= seq![1000u64, 10000]);
        } else {
            let mut i: u64 = 0;
            while i <= 10000
                invariant
                    i <= 10001,
                    res@ =~= Seq::new(i as nat, |k: int| k as u64),
                decreases 10001 - i,
            {
                res.push(i);
                i = i + 1;
            }
        }
        res
    }

    /// The fidelity used for an evaluation whose cost must not exceed `max_cost`.
    pub fn choose_phi(&self, max_cost: u64) -> (res: u64)
        ensures
            res == chosen_phi(self.c, mfb_phis(self.no), max_cost),
    {
        let phis = self.phis();
        let mut k: usize = 0;
        assert(phis@.subrange(0, phis@.len() as int) =~= phis@);
        while k < phis.len() && self.c.cost(phis[k]) <= max_cost
            invariant
                k <= phis@.len(),
                phis@ == mfb_phis(self.no),
                affordable_prefix(self.c, phis@, max_cost) == k + affordable_prefix(self.c, phis@.subrange(k as int, phis@.len() as int), max_cost),
            decreases phis.len() - k,
        {
            proof {
                let rest = phis@.subrange(k as int, phis@.len() as int);
                assert(rest.drop_first() =~= phis@.subrange(k + 1, phis@.len() as int));
            }
            k = k + 1;
        }
        proof {
            let rest = phis@.subrange(k as int, phis@.len() as int);
            if k < phis@.len() {
                assert(rest[0] == phis@[k as int]);
            } else {
                assert(rest.len() == 0);
            }
        }
        if k > 0 { phis[k - 1] } else { phis[0] }
    }
}

impl MfbProblem {
    /// The name of the problem: `MFB` followed by its number.
    pub fn problem_name(&self) -> (res: String)
        ensures
            res@ == "MFB"@ + decimal(self.mfb.no as nat),
    {
        let mut s = "MFB".to_owned();
        s.append(u64_to_string(self.mfb.no as u64).as_str());
        s
    }
}

impl MfbEvaluator {
    /// The fidelity of an evaluation given `budget` steps: the cost allowance is
    /// `budget * 10_000 / fidelity_levels`.
    pub fn fidelity(&self, budget: u64) -> (res: u64)
        requires
            self.fidelity_levels > 0,
            budget * 10_000 <= u64::MAX,
        ensures
            res == chosen_phi(self.mfb.c, mfb_phis(self.mfb.no), (budget * 10_000 / self.fidelity_levels as int) as u64),
    {
        let max_cost = budget * 10_000 / self.fidelity_levels;
        self.mfb.choose_phi(max_cost)
    }
}

impl MfbProblem {
    /// Creates an evaluator of this problem.
    pub fn create_evaluator(&self) -> (res: MfbEvaluator)
        ensures
            res.mfb == self.mfb,
            res.fidelity_levels == self.fidelity_levels,
    {
        MfbEvaluator { mfb: self.mfb, fidelity_levels: self.fidelity_levels }
    }
}

/// The cost of an evaluation never falls as the fidelity rises.
pub proof fn lemma_cost_grows_with_fidelity(c: Cost, a: u64, b: u64)
    requires
        a <= b,
    ensures
        cost_of(c, a) <= cost_of(c, b),
{
    if c == Cost::NonLinear {
        let x = a as int;
        let y = b as int;
        assert(x * x * x * x <= y * y * y * y) by (nonlinear_arith)
            requires 0 <= x <= y;
        vstd::arithmetic::div_mod::lemma_div_is_ordered(
            x * x * x * x + 500_000_000_000,
            y * y * y * y + 500_000_000_000,
            1_000_000_000_000,
        );
    }
}

proof fn lemma_prefix_grows_with_budget(c: Cost, phis: Seq<u64>, m1: u64, m2: u64)
    requires
        m1 <= m2,
    ensures
        affordable_prefix(c, phis, m1) <= affordable_prefix(c, phis, m2),
        affordable_prefix(c, phis, m2) <= phis.len(),
    decreases phis.len(),
{
    if phis.len() > 0 {
        lemma_prefix_grows_with_budget(c, phis.drop_first(), m1, m2);
    }
}

proof fn lemma_prefix_affordable(c: Cost, phis: Seq<u64>, m: u64, i: int)
    requires
        0 <= i < affordable_prefix(c, phis, m),
    ensures
        cost_of(c, phis[i]) <= m,
    decreases phis.len(),
{
    lemma_prefix_grows_with_budget(c, phis, m, m);
    if i > 0 {
        lemma_prefix_affordable(c, phis.drop_first(), m, i - 1);
        assert(phis.drop_first()[i - 1] == phis[i]);
    }
}

/// The fidelities of every problem are not empty and strictly increasing.
pub proof fn lemma_phis_increase(no: usize)
    ensures
        mfb_phis(no).len() > 0,
        forall|i: int, j: int| 0 <= i < j < mfb_phis(no).len() ==> mfb_phis(no)[i] < mfb_phis(no)[j],
{
}

/// The fidelities of the suite: problem 4 runs at the multiples of 1000 from 0 to 10 000,
/// problem 5 at 1000, 3000 and 10 000, problem 6 at 1000 and 10 000, and every other problem
/// at each integer from 0 to 10 000.
pub proof fn lemma_suite_fidelities(no: usize)
    ensures
        no == 4 ==> mfb_phis(no).len() == 11 && forall|i: int| 0 <= i < 11 ==> #[trigger] mfb_phis(no)[i] == 1000 * i,
        no == 5 ==> mfb_phis(no) =~= seq![1000u64, 3000u64, 10_000u64],
        no == 6 ==> mfb_phis(no) =~= seq![1000u64, 10_000u64],
        no != 4 && no != 5 && no != 6 ==> mfb_phis(no).len() == 10_001
            && forall|i: int| 0 <= i <= 10_000 ==> #[trigger] mfb_phis(no)[i] == i,
{
}

/// The non-linear cost is `(phi / 1000)^4` rounded to the nearest integer (a half rounds
/// up): unless it saturates, it is within a half of `phi^4 / 10^12`. The linear cost is the
/// fidelity itself.
pub proof fn lemma_cost_formula(phi: u64)
    ensures
        cost_of(Cost::Linear, phi) == phi,
        cost_of(Cost::NonLinear, phi) < u64::MAX ==> ({
            let x = phi as int * phi as int * phi as int * phi as int;
            let v = cost_of(Cost::NonLinear, phi) as int;
            &&& 2 * v * 1_000_000_000_000 <= 2 * x + 1_000_000_000_000
            &&& 2 * x + 1_000_000_000_000 < 2 * v * 1_000_000_000_000 + 2_000_000_000_000
        }),
{
    let p = phi as int;
    let x = p * p * p * p;
    assert(p * p * p * p >= 0) by (nonlinear_arith)
        requires p >= 0;
    let d: int = 1_000_000_000_000;
    vstd::arithmetic::div_mod::lemma_fundamental_div_mod(x + d / 2, d);
    assert(0 <= (x + d / 2) % d < d) by {
        vstd::arithmetic::div_mod::lemma_mod_bound(x + d / 2, d);
    }
    assert((phi * phi * phi * phi) as nat == x);
}

proof fn lemma_prefix_stops(c: Cost, phis: Seq<u64>, m: u64)
    ensures
        affordable_prefix(c, phis, m) < phis.len() ==> cost_of(c, phis[affordable_prefix(c, phis, m) as int]) > m,
    decreases phis.len(),
{
    if phis.len() > 0 && cost_of(c, phis[0]) <= m {
        lemma_prefix_stops(c, phis.drop_first(), m);
        let k = affordable_prefix(c, phis.drop_first(), m);
        if k < phis.drop_first().len() {
            assert(phis.drop_first()[k as int] == phis[k as int + 1]);
        }
    }
}

/// The fidelity chosen for a budget is the largest of the problem's fidelities whose cost
/// is within the budget: no affordable fidelity lies above it.
pub proof fn lemma_chosen_phi_is_largest_affordable(c: Cost, no: usize, m: u64, i: int)
    requires
        0 <= i < mfb_phis(no).len(),
        cost_of(c, mfb_phis(no)[i]) <= m,
    ensures
        mfb_phis(no)[i] <= chosen_phi(c, mfb_phis(no), m),
        cost_of(c, chosen_phi(c, mfb_phis(no), m)) <= m,
{
    let phis = mfb_phis(no);
    lemma_phis_increase(no);
    lemma_prefix_grows_with_budget(c, phis, m, m);
    lemma_prefix_stops(c, phis, m);
    let k = affordable_prefix(c, phis, m);
    if k <= i {
        if i > k {
            assert(phis[k as int] < phis[i]);
        }
        lemma_cost_grows_with_fidelity(c, phis[k as int], phis[i]);
        assert(false);
    }
    assert(k > 0);
    if i < k - 1 {
        assert(phis[i] < phis[k - 1]);
    }
    lemma_prefix_affordable(c, phis, m, k - 1);
}

/// The fidelity chosen for a budget: is one of the problem's fidelities; is affordable
/// whenever the lowest fidelity is; and never falls when the budget grows.
pub proof fn lemma_chosen_phi(c: Cost, no: usize, m1: u64, m2: u64)
    requires
        m1 <= m2,
    ensures
        mfb_phis(no).contains(chosen_phi(c, mfb_phis(no), m1)),
        cost_of(c, mfb_phis(no)[0]) <= m1 ==> cost_of(c, chosen_phi(c, mfb_phis(no), m1)) <= m1,
        chosen_phi(c, mfb_phis(no), m1) <= chosen_phi(c, mfb_phis(no), m2),
{
    let phis = mfb_phis(no);
    lemma_phis_increase(no);
    lemma_prefix_grows_with_budget(c, phis, m1, m2);
    lemma_prefix_grows_with_budget(c, phis, m1, m1);
    let k1 = affordable_prefix(c, phis, m1);
    let k2 = affordable_prefix(c, phis, m2);
    if k1 > 0 {
        assert(phis[k1 - 1] == chosen_phi(c, phis, m1));
        lemma_prefix_affordable(c, phis, m1, k1 - 1);
    } else {
        assert(phis[0] == chosen_phi(c, phis, m1));
        if phis.len() > 0 {
            assert(cost_of(c, phis[0]) > m1 || affordable_prefix(c, phis, m1) > 0);
        }
    }
    if k2 > 0 && k1 < k2 {
        if k1 > 0 {
            assert(phis[k1 - 1] < phis[k2 - 1]);
        } else if k2 > 1 {
            assert(phis[0] < phis[k2 - 1]);
        }
    }
}

} // verus!
