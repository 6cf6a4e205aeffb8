//! A two-objective problem that takes its name from its authors Zitzler, Deb and Thiele.
//!
//! Only the fifth function works on bit strings; its objectives are counts of set bits.
use vstd::prelude::*;
use crate::domain::{domain_valid, is_continuous_var, is_discrete_var, lemma_indexed_vars_distinct, variable_valid, Distribution, RangeSpec, VariableSpec};
use crate::error::ErrorKind;
use crate::problem::{valid_steps, ProblemSpec, ProblemSpecBuilder};
use crate::text::{concat, indexed_name, indexed_name_of};

verus! {

/// ZDT functions.
#[derive(Debug, Clone, Copy, PartialEq, Eq, Structural)]
pub enum Zdt {
    /// Convex Pareto-optimal front; solutions uniformly distributed in the search space.
    Function1,
    /// The non-convex counterpart to the function 1.
    Function2,
    /// Discreteness features: the front consists of several non-contiguous convex parts.
    Function3,
    /// `21**9` local Pareto-optimal fronts: tests the ability to deal with multimodality.
    Function4,
    /// A deceptive problem in which each parameter represents a binary string.
    Function5,
    /// Two difficulties caused by the non-uniformity of the search space.
    Function6,
}

/// Recipe of `ZdtProblem`.
#[derive(Debug, Clone, Copy)]
pub struct ZdtProblemRecipe {
    pub zdt: Zdt,
}

/// Factory of `ZdtProblem`.
#[derive(Debug, Clone, Copy)]
pub struct ZdtProblemFactory {
    pub zdt: Zdt,
}

/// ZDT problem.
#[derive(Debug, Clone, Copy)]
pub struct ZdtProblem {
    pub zdt: Zdt,
}

impl ZdtProblemRecipe {
    /// Creates the factory of the recipe's function.
    pub fn create_factory(&self) -> (res: ZdtProblemFactory)
        ensures
            res.zdt == self.zdt,
    {
        ZdtProblemFactory { zdt: self.zdt }
    }
}

impl ZdtProblemFactory {
    /// Creates a problem of the factory's function.
    pub fn create_problem(&self) -> (res: ZdtProblem)
        ensures
            res.zdt == self.zdt,
    {
        ZdtProblem { zdt: self.zdt }
    }
}

pub open spec fn zdt_name(z: Zdt) -> Seq<char> {
    match z {
        Zdt::Function1 => "ZDT1"@,
        Zdt::Function2 => "ZDT2"@,
        Zdt::Function3 => "ZDT3"@,
        Zdt::Function4 => "ZDT4"@,
        Zdt::Function5 => "ZDT5"@,
        Zdt::Function6 => "ZDT6"@,
    }
}

pub open spec fn zdt_dimensions(z: Zdt) -> nat {
    match z {
        Zdt::Function1 | Zdt::Function2 | Zdt::Function3 => 30,
        Zdt::Function4 => 10,
        Zdt::Function5 => 11,
        Zdt::Function6 => 10,
    }
}

/// The number of set bits of `n`.
pub open spec fn popcount(n: nat) -> nat
    decreases n,
{
    if n == 0 {
        0
    } else {
        n % 2 + popcount(n / 2)
    }
}

/// The contribution of one later bit string of ZDT5 to `g`.
pub open spec fn zdt5_unit(ones: nat) -> nat {
    if ones < 5 { 2 + ones } else { 1 }
}

/// The sum of the contributions of `xs[1..n]`.
pub open spec fn zdt5_g(xs: Seq<i64>, n: nat) -> nat
    decreases n,
{
    if n <= 1 {
        0
    } else {
        zdt5_g(xs, (n - 1) as nat) + zdt5_unit(popcount((xs[n - 1] as u64) as nat))
    }
}

proof fn lemma_popcount_bound(n: nat, bits: nat)
    requires
        n < vstd::arithmetic::power2::pow2(bits),
    ensures
        popcount(n) <= bits,
    decreases bits,
{
    if n == 0 {
    } else if bits == 0 {
        vstd::arithmetic::power2::lemma2_to64();
    } else {
        vstd::arithmetic::power2::lemma_pow2_unfold(bits);
        assert(n / 2 < vstd::arithmetic::power2::pow2((bits - 1) as nat));
        lemma_popcount_bound(n / 2, (bits - 1) as nat);
    }
}

/// The number of set bits of the two's complement representation of `x`.
pub fn count_ones(x: i64) -> (res: u64)
    ensures
        res == popcount((x as u64) as nat),
        res <= 64,
{
    let mut n: u64 = x as u64;
    let mut count: u64 = 0;
    let ghost start = n as nat;
    proof {
        vstd::arithmetic::power2::lemma2_to64();
        lemma_popcount_bound(start, 64);
    }
    while n > 0
        invariant
            start == (x as u64) as nat,
            count + popcount(n as nat) == popcount(start),
            popcount(start) <= 64,
        decreases n,
    {
        count = count + n % 2;
        n = n / 2;
    }
    count
}

impl Zdt {
    /// The name of the function.
    pub fn name(self) -> (res: &'static str)
        ensures
            res@ == zdt_name(self),
    {
        match self {
            Zdt::Function1 => "ZDT1",
            Zdt::Function2 => "ZDT2",
            Zdt::Function3 => "ZDT3",
            Zdt::Function4 => "ZDT4",
            Zdt::Function5 => "ZDT5",
            Zdt::Function6 => "ZDT6",
        }
    }

    /// The number of decision variables of the function.
    pub fn dimensions(self) -> (res: usize)
        ensures
            res == zdt_dimensions(self),
    {
        match self {
            Zdt::Function1 | Zdt::Function2 | Zdt::Function3 => 30,
            Zdt::Function4 => 10,
            Zdt::Function5 => 11,
            Zdt::Function6 => 10,
        }
    }

    /// The discrete ranges `[low, high)` (low included, high excluded) of the decision
    /// variables of the fifth function, as the problem declares them: one range for the
    /// 30-bit string, then ten for the 5-bit strings.
    pub fn discrete_ranges() -> (res: Vec<(i64, i64)>)
        ensures
            res@.len() == 11,
            res@[0] == (0i64, 0x3fff_ffffi64),
            forall|i: int| 1 <= i < 11 ==> res@[i] == (0i64, 31i64),
    {
        let mut res: Vec<(i64, i64)> = Vec::new();
        assert((1i64 << 30) == 0x4000_0000i64) by (bit_vector);
        res.push((0, (1i64 << 30) - 1));
        let mut i: usize = 0;
        while i < 10
            invariant
                i <= 10,
                res@.len() == i + 1,
                res@[0] == (0i64, 0x3fff_ffffi64),
                forall|j: int| 1 <= j < i + 1 ==> res@[j] == (0i64, 31i64),
            decreases 10 - i,
        {
            assert((1i64 << 5) == 32i64) by (bit_vector);
            res.push((0, (1i64 << 5) - 1));
            i = i + 1;
        }
        res
    }

    /// The two integer quantities of the fifth function on the bit strings `xs`:
    /// `f1` = 1 + the number of set bits of `xs[0]`, and `g` = the sum over the later
    /// strings of 2 + their number of set bits when it is below 5, else 1.
    /// The objectives are `f1` and `g / f1`.
    pub fn zdt5_terms(xs: &[i64]) -> (res: (u64, u64))
        requires
            xs@.len() >= 1,
            xs@.len() < 0x1000_0000_0000_0000,
        ensures
            res.0 == 1 + popcount((xs@[0] as u64) as nat),
            res.1 == zdt5_g(xs@, xs@.len()),
    {
        let f1 = 1 + count_ones(xs[0]);
        let mut g: u64 = 0;
        let mut i: usize = 1;
        while i < xs.len()
            invariant
                1 <= i <= xs@.len(),
                xs@.len() < 0x1000_0000_0000_0000,
                g == zdt5_g(xs@, i as nat),
                g <= 6 * i,
            decreases xs.len() - i,
        {
            let ones = count_ones(xs[i]);
            let unit = if ones < 5 { 2 + ones } else { 1 };
            g = g + unit;
            i = i + 1;
        }
        (f1, g)
    }
}

/// Parameter `i` of the function: `x<i>`, continuous for all functions but the fifth,
/// whose parameters are discrete with the ranges of `discrete_ranges`.
pub open spec fn zdt_param(z: Zdt, v: VariableSpec, i: int) -> bool {
    if z == Zdt::Function5 {
        is_discrete_var(v, indexed_name("x"@, i as nat), 0, if i == 0 { 0x3fff_ffffi64 } else { 31i64 }, Distribution::Uniform)
    } else {
        is_continuous_var(v, indexed_name("x"@, i as nat), true, false, Distribution::Uniform)
    }
}

/// The parameter domain of the function: `x0`, `x1`, ... as `zdt_param` describes them.
pub open spec fn zdt_params(z: Zdt, vars: Seq<VariableSpec>) -> bool {
    &&& vars.len() == zdt_dimensions(z)
    &&& forall|i: int| 0 <= i < vars.len() ==> zdt_param(z, #[trigger] vars[i], i)
}

/// The value domain of every function: the two objectives `f1` and `f2`, continuous and
/// unbounded.
pub open spec fn zdt_values(vars: Seq<VariableSpec>) -> bool {
    &&& vars.len() == 2
    &&& is_continuous_var(vars[0], "f1"@, true, false, Distribution::Uniform)
    &&& is_continuous_var(vars[1], "f2"@, true, false, Distribution::Uniform)
}

/// The attributes of the problems built by a crate of the given version.
pub open spec fn zdt_attrs(crate_version: Seq<char>) -> Map<Seq<char>, Seq<char>> {
    Map::<Seq<char>, Seq<char>>::empty()
        .insert("version"@, "kurobako_problems="@ + crate_version)
        .insert("paper"@, "Zitzler, Eckart, Kalyanmoy Deb, and Lothar Thiele. \"Comparison of multiobjective evolutionary algorithms: Empirical results.\" Evolutionary computation 8.2 (2000): 173-195."@)
}

fn unbounded_var(name: &str) -> (res: VariableSpec)
    ensures
        variable_valid(res),
        is_continuous_var(res, name@, true, false, Distribution::Uniform),
{
    VariableSpec {
        name: name.to_owned(),
        range: RangeSpec::Continuous { low_below_high: true, low_positive: false },
        distribution: Distribution::Uniform,
        constrained: false,
    }
}

impl ZdtProblemFactory {
    /// The specification of the problem, built by a crate of the given version: named
    /// after the function, with its attributes, its parameters `x0`, `x1`, ... (see
    /// `zdt_param`), the two objectives `f1` and `f2`, and the single step 1.
    pub fn specification(&self, crate_version: &str) -> (res: Result<ProblemSpec, ErrorKind>)
        ensures
            res is Ok,
            res->Ok_0.name@ == zdt_name(self.zdt),
            res->Ok_0.attrs@ == zdt_attrs(crate_version@),
            zdt_params(self.zdt, res->Ok_0.params_domain@),
            zdt_values(res->Ok_0.values_domain@),
            res->Ok_0.steps@ == seq![1u64],
    {
        let z = self.zdt;
        let n = z.dimensions();
        let mut params: Vec<VariableSpec> = Vec::new();
        let mut i: usize = 0;
        while i < n
            invariant
                i <= n,
                n == zdt_dimensions(z),
                params@.len() == i,
                forall|k: int| 0 <= k < i ==> zdt_param(z, #[trigger] params@[k], k),
                forall|k: int| 0 <= k < i ==> variable_valid(#[trigger] params@[k]),
            decreases n - i,
        {
            let name = indexed_name_of("x", i as u64);
            let range = if z == Zdt::Function5 {
                RangeSpec::Discrete { low: 0, high: if i == 0 { 0x3fff_ffff } else { 31 } }
            } else {
                RangeSpec::Continuous { low_below_high: true, low_positive: false }
            };
            params.push(VariableSpec { name, range, distribution: Distribution::Uniform, constrained: false });
            i = i + 1;
        }
        let f1 = unbounded_var("f1");
        let f2 = unbounded_var("f2");
        let ghost values = seq![f1, f2];
        let version = concat("kurobako_problems=", crate_version);
        let builder = ProblemSpecBuilder::new(z.name())
            .attr("version", version.as_str())
            .attr(
                "paper",
                "Zitzler, Eckart, Kalyanmoy Deb, and Lothar Thiele. \"Comparison of multiobjective evolutionary algorithms: Empirical results.\" Evolutionary computation 8.2 (2000): 173-195.",
            )
            .params(params)
            .value(f1)
            .value(f2);
        proof {
            let ps = builder.spec_params();
            assert forall|k: int| 0 <= k < ps.len() implies (#[trigger] ps[k]).name@ == indexed_name("x"@, k as nat) by {
                assert(zdt_param(z, ps[k], k));
            }
            lemma_indexed_vars_distinct(ps, "x"@);
            assert(domain_valid(ps));
            assert(builder.spec_values() =~= values);
            reveal_strlit("f1");
            reveal_strlit("f2");
            assert("f1"@[1] != "f2"@[1]);
            assert(domain_valid(values));
            assert(valid_steps(seq![1u64]));
        }
        builder.finish()
    }
}

} // verus!
