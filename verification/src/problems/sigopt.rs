//! Test functions of the sigopt evaluation set: their names and dimensions, and the
//! specification of the problem made of the one that is implemented.
use vstd::prelude::*;
use crate::error::ErrorKind;
use vstd::string::StringExecFns;
use crate::domain::{domain_valid, is_continuous_var, is_discrete_var, lemma_indexed_vars_distinct, variable_valid, Distribution, RangeSpec, VariableSpec};
use crate::problem::{valid_steps, ProblemSpec, ProblemSpecBuilder};
use crate::text::{decimal, indexed_name, indexed_name_of, u64_to_string};

verus! {

/// Test function name.
#[derive(Debug, Clone, Copy, PartialEq, Eq, Structural, Hash, PartialOrd, Ord)]
pub enum Name {
    Ackley,
    Adjiman,
    Alpine01,
    Alpine02,
    ArithmeticGeometricMean,
    BartelsConn,
    Beale,
    Bird,
    Bohachevsky,
    BoxBetts,
    Branin01,
    Branin02,
    Brent,
    Brown,
    Bukin06,
    CarromTable,
    Chichinadze,
    Cigar,
    Cola,
    Corana,
    CosineMixture,
    CrossInTray,
    Csendes,
    Cube,
    Damavandi,
    Deb01,
    Deb02,
    Deceptive,
    DeflectedCorrugatedSpring,
    Dolan,
    DropWave,
    Easom,
    EggCrate,
    EggHolder,
    ElAttarVidyasagarDutta,
    Exponential,
    Franke,
    FreudensteinRoth,
    Gear,
    Giunta,
    GoldsteinPrice,
    Griewank,
    Hansen,
    Hartmann3,
    Hartmann4,
    Hartmann6,
    HelicalValley,
    HimmelBlau,
    HolderTable,
    Hosaki,
    HosakiExpanded,
    JennrichSampson,
    Judge,
    Keane,
    Langermann,
    LennardJones6,
    Leon,
    Levy03,
    Levy05,
    Levy13,
    Matyas,
    McCormick,
    McCourt01,
    McCourt02,
    McCourt03,
    McCourt04,
    McCourt05,
    McCourt06,
    McCourt07,
    McCourt08,
    McCourt09,
    McCourt10,
    McCourt11,
    McCourt12,
    McCourt13,
    McCourt14,
    McCourt15,
    McCourt16,
    McCourt17,
    McCourt18,
    McCourt19,
    McCourt20,
    McCourt21,
    McCourt22,
    McCourt23,
    McCourt24,
    McCourt25,
    McCourt26,
    McCourt27,
    McCourt28,
    MegaDomain01,
    MegaDomain02,
    MegaDomain03,
    MegaDomain04,
    MegaDomain05,
    Michalewicz,
    MieleCantrell,
    Mishra02,
    Mishra06,
    Mishra08,
    Mishra10,
    ManifoldMin,
    MixtureOfGaussians01,
    MixtureOfGaussians02,
    MixtureOfGaussians03,
    MixtureOfGaussians04,
    MixtureOfGaussians05,
    MixtureOfGaussians06,
    Ned01,
    Ned03,
    OddSquare,
    Parsopoulos,
    Pavianini,
    Penalty01,
    Penalty02,
    PenHolder,
    Perm01,
    Perm02,
    Pinter,
    Plateau,
    Powell,
    PowellTripleLog,
    PowerSum,
    Price,
    Qing,
    Quadratic,
    Rastrigin,
    RippleSmall,
    RippleBig,
    RosenbrockLog,
    RosenbrockModified,
    Salomon,
    Sargan,
    Schaffer,
    SchmidtVetters,
    Schwefel01,
    Schwefel06,
    Schwefel20,
    Schwefel22,
    Schwefel26,
    Schwefel36,
    Shekel05,
    Shekel07,
    Shekel10,
    Shubert01,
    Shubert03,
    SineEnvelope,
    SixHumpCamel,
    Sphere,
    Step,
    StretchedV,
    StyblinskiTang,
    SumPowers,
    TestTubeHolder,
    ThreeHumpCamel,
    Trefethen,
    Trid,
    Tripod,
    Ursem01,
    Ursem03,
    Ursem04,
    UrsemWaves,
    VenterSobiezcczanskiSobieski,
    Watson,
    Weierstrass,
    Wolfe,
    XinSheYang02,
    XinSheYang03,
    Xor,
    YaoLiu,
    ZeroSum,
    Zimmerman,
    Problem02,
    Problem03,
    Problem04,
    Problem05,
    Problem06,
    Problem07,
    Problem09,
    Problem10,
    Problem11,
    Problem12,
    Problem13,
    Problem14,
    Problem15,
    Problem18,
    Problem20,
    Problem21,
    Problem22,
}

impl Name {
    /// Returns `true` if the test function of this name is implemented.
    pub fn is_implemented(&self) -> (res: bool)
        ensures
            res == (*self == Name::Ackley),
    {
        match self {
            Name::Ackley => true,
            _ => false,
        }
    }
}

/// The dimension rule of a test function: the dimension it has when none is given, and
/// the only dimension it accepts when it accepts only one.
pub trait Dimensions {
    /// The dimension used when none is given.
    spec fn spec_default_dimension(&self) -> usize;

    /// The only dimension accepted, if the function accepts only one.
    spec fn spec_fixed_dimension(&self) -> Option<usize>;

    /// The dimension used when none is given.
    fn default_dimension(&self) -> (res: usize)
        ensures
            res == self.spec_default_dimension();

    /// The only dimension accepted, if the function accepts only one.
    fn fixed_dimension(&self) -> (res: Option<usize>)
        ensures
            res == self.spec_fixed_dimension();
}

/// Checks a dimension against the rule of a test function: refused with `InvalidInput`
/// when the function accepts only one dimension and `dim` is another.
pub fn check_dimension<T: Dimensions>(f: &T, dim: usize) -> (res: Result<(), ErrorKind>)
    ensures
        match f.spec_fixed_dimension() {
            Some(n) => (res is Ok <==> dim == n),
            None => res is Ok,
        },
        res is Err ==> res == Err::<(), ErrorKind>(ErrorKind::InvalidInput),
{
    match f.fixed_dimension() {
        Some(n) => if dim == n { Ok(()) } else { Err(ErrorKind::InvalidInput) },
        None => Ok(()),
    }
}

/// The dimension of a problem made from a test function: the one the recipe gives, or the
/// function's default dimension.
pub fn problem_dimension<T: Dimensions>(f: &T, dim: Option<usize>) -> (res: usize)
    ensures
        res == match dim {
            Some(d) => d,
            None => f.spec_default_dimension(),
        },
{
    match dim {
        Some(d) => d,
        None => f.default_dimension(),
    }
}

/// The `Ackley` test function.
#[derive(Debug, Clone, Copy)]
pub struct Ackley;

impl Dimensions for Ackley {
    open spec fn spec_default_dimension(&self) -> usize {
        2
    }

    open spec fn spec_fixed_dimension(&self) -> Option<usize> {
        None::<usize>
    }

    fn default_dimension(&self) -> (res: usize) {
        2
    }

    fn fixed_dimension(&self) -> (res: Option<usize>) {
        None
    }
}

/// The `Adjiman` test function.
#[derive(Debug, Clone, Copy)]
pub struct Adjiman;

impl Dimensions for Adjiman {
    open spec fn spec_default_dimension(&self) -> usize {
        2
    }

    open spec fn spec_fixed_dimension(&self) -> Option<usize> {
        Some(2usize)
    }

    fn default_dimension(&self) -> (res: usize) {
        2
    }

    fn fixed_dimension(&self) -> (res: Option<usize>) {
        Some(2)
    }
}

/// The `Branin02` test function.
#[derive(Debug, Clone, Copy)]
pub struct Branin02;

impl Dimensions for Branin02 {
    open spec fn spec_default_dimension(&self) -> usize {
        2
    }

    open spec fn spec_fixed_dimension(&self) -> Option<usize> {
        Some(2usize)
    }

    fn default_dimension(&self) -> (res: usize) {
        2
    }

    fn fixed_dimension(&self) -> (res: Option<usize>) {
        Some(2)
    }
}

/// The `Bukin06` test function.
#[derive(Debug, Clone, Copy)]
pub struct Bukin06;

impl Dimensions for Bukin06 {
    open spec fn spec_default_dimension(&self) -> usize {
        2
    }

    open spec fn spec_fixed_dimension(&self) -> Option<usize> {
        Some(2usize)
    }

    fn default_dimension(&self) -> (res: usize) {
        2
    }

    fn fixed_dimension(&self) -> (res: Option<usize>) {
        Some(2)
    }
}

/// The `CarromTable` test function.
#[derive(Debug, Clone, Copy)]
pub struct CarromTable;

impl Dimensions for CarromTable {
    open spec fn spec_default_dimension(&self) -> usize {
        2
    }

    open spec fn spec_fixed_dimension(&self) -> Option<usize> {
        Some(2usize)
    }

    fn default_dimension(&self) -> (res: usize) {
        2
    }

    fn fixed_dimension(&self) -> (res: Option<usize>) {
        Some(2)
    }
}

/// The `Csendes` test function.
#[derive(Debug, Clone, Copy)]
pub struct Csendes;

impl Dimensions for Csendes {
    open spec fn spec_default_dimension(&self) -> usize {
        2
    }

    open spec fn spec_fixed_dimension(&self) -> Option<usize> {
        None::<usize>
    }

    fn default_dimension(&self) -> (res: usize) {
        2
    }

    fn fixed_dimension(&self) -> (res: Option<usize>) {
        None
    }
}

/// The `Deb02` test function.
#[derive(Debug, Clone, Copy)]
pub struct Deb02;

impl Dimensions for Deb02 {
    open spec fn spec_default_dimension(&self) -> usize {
        2
    }

    open spec fn spec_fixed_dimension(&self) -> Option<usize> {
        None::<usize>
    }

    fn default_dimension(&self) -> (res: usize) {
        2
    }

    fn fixed_dimension(&self) -> (res: Option<usize>) {
        None
    }
}

/// The `DeflectedCorrugatedSpring` test function.
#[derive(Debug, Clone, Copy)]
pub struct DeflectedCorrugatedSpring;

impl Dimensions for DeflectedCorrugatedSpring {
    open spec fn spec_default_dimension(&self) -> usize {
        2
    }

    open spec fn spec_fixed_dimension(&self) -> Option<usize> {
        None::<usize>
    }

    fn default_dimension(&self) -> (res: usize) {
        2
    }

    fn fixed_dimension(&self) -> (res: Option<usize>) {
        None
    }
}

/// The `Easom` test function.
#[derive(Debug, Clone, Copy)]
pub struct Easom;

impl Dimensions for Easom {
    open spec fn spec_default_dimension(&self) -> usize {
        2
    }

    open spec fn spec_fixed_dimension(&self) -> Option<usize> {
        None::<usize>
    }

    fn default_dimension(&self) -> (res: usize) {
        2
    }

    fn fixed_dimension(&self) -> (res: Option<usize>) {
        None
    }
}

/// The `Exponential` test function.
#[derive(Debug, Clone, Copy)]
pub struct Exponential;

impl Dimensions for Exponential {
    open spec fn spec_default_dimension(&self) -> usize {
        2
    }

    open spec fn spec_fixed_dimension(&self) -> Option<usize> {
        None::<usize>
    }

    fn default_dimension(&self) -> (res: usize) {
        2
    }

    fn fixed_dimension(&self) -> (res: Option<usize>) {
        None
    }
}

/// The `Hartmann3` test function.
#[derive(Debug, Clone, Copy)]
pub struct Hartmann3;

impl Dimensions for Hartmann3 {
    open spec fn spec_default_dimension(&self) -> usize {
        3
    }

    open spec fn spec_fixed_dimension(&self) -> Option<usize> {
        Some(3usize)
    }

    fn default_dimension(&self) -> (res: usize) {
        3
    }

    fn fixed_dimension(&self) -> (res: Option<usize>) {
        Some(3)
    }
}

/// The `Hartmann6` test function.
#[derive(Debug, Clone, Copy)]
pub struct Hartmann6;

impl Dimensions for Hartmann6 {
    open spec fn spec_default_dimension(&self) -> usize {
        6
    }

    open spec fn spec_fixed_dimension(&self) -> Option<usize> {
        Some(6usize)
    }

    fn default_dimension(&self) -> (res: usize) {
        6
    }

    fn fixed_dimension(&self) -> (res: Option<usize>) {
        Some(6)
    }
}

/// The `HelicalValley` test function.
#[derive(Debug, Clone, Copy)]
pub struct HelicalValley;

impl Dimensions for HelicalValley {
    open spec fn spec_default_dimension(&self) -> usize {
        3
    }

    open spec fn spec_fixed_dimension(&self) -> Option<usize> {
        Some(3usize)
    }

    fn default_dimension(&self) -> (res: usize) {
        3
    }

    fn fixed_dimension(&self) -> (res: Option<usize>) {
        Some(3)
    }
}

/// The `LennardJones6` test function.
#[derive(Debug, Clone, Copy)]
pub struct LennardJones6;

impl Dimensions for LennardJones6 {
    open spec fn spec_default_dimension(&self) -> usize {
        6
    }

    open spec fn spec_fixed_dimension(&self) -> Option<usize> {
        Some(6usize)
    }

    fn default_dimension(&self) -> (res: usize) {
        6
    }

    fn fixed_dimension(&self) -> (res: Option<usize>) {
        Some(6)
    }
}

/// The `McCourt01` test function.
#[derive(Debug, Clone, Copy)]
pub struct McCourt01;

impl Dimensions for McCourt01 {
    open spec fn spec_default_dimension(&self) -> usize {
        7
    }

    open spec fn spec_fixed_dimension(&self) -> Option<usize> {
        Some(7usize)
    }

    fn default_dimension(&self) -> (res: usize) {
        7
    }

    fn fixed_dimension(&self) -> (res: Option<usize>) {
        Some(7)
    }
}

/// The `McCourt02` test function.
#[derive(Debug, Clone, Copy)]
pub struct McCourt02;

impl Dimensions for McCourt02 {
    open spec fn spec_default_dimension(&self) -> usize {
        7
    }

    open spec fn spec_fixed_dimension(&self) -> Option<usize> {
        Some(7usize)
    }

    fn default_dimension(&self) -> (res: usize) {
        7
    }

    fn fixed_dimension(&self) -> (res: Option<usize>) {
        Some(7)
    }
}

/// The `McCourt03` test function.
#[derive(Debug, Clone, Copy)]
pub struct McCourt03;

impl Dimensions for McCourt03 {
    open spec fn spec_default_dimension(&self) -> usize {
        9
    }

    open spec fn spec_fixed_dimension(&self) -> Option<usize> {
        Some(9usize)
    }

    fn default_dimension(&self) -> (res: usize) {
        9
    }

    fn fixed_dimension(&self) -> (res: Option<usize>) {
        Some(9)
    }
}

/// The `McCourt06` test function.
#[derive(Debug, Clone, Copy)]
pub struct McCourt06;

impl Dimensions for McCourt06 {
    open spec fn spec_default_dimension(&self) -> usize {
        5
    }

    open spec fn spec_fixed_dimension(&self) -> Option<usize> {
        Some(5usize)
    }

    fn default_dimension(&self) -> (res: usize) {
        5
    }

    fn fixed_dimension(&self) -> (res: Option<usize>) {
        Some(5)
    }
}

/// The `McCourt07` test function.
#[derive(Debug, Clone, Copy)]
pub struct McCourt07;

impl Dimensions for McCourt07 {
    open spec fn spec_default_dimension(&self) -> usize {
        6
    }

    open spec fn spec_fixed_dimension(&self) -> Option<usize> {
        Some(6usize)
    }

    fn default_dimension(&self) -> (res: usize) {
        6
    }

    fn fixed_dimension(&self) -> (res: Option<usize>) {
        Some(6)
    }
}

/// The `McCourt08` test function.
#[derive(Debug, Clone, Copy)]
pub struct McCourt08;

impl Dimensions for McCourt08 {
    open spec fn spec_default_dimension(&self) -> usize {
        4
    }

    open spec fn spec_fixed_dimension(&self) -> Option<usize> {
        Some(4usize)
    }

    fn default_dimension(&self) -> (res: usize) {
        4
    }

    fn fixed_dimension(&self) -> (res: Option<usize>) {
        Some(4)
    }
}

/// The `McCourt09` test function.
#[derive(Debug, Clone, Copy)]
pub struct McCourt09;

impl Dimensions for McCourt09 {
    open spec fn spec_default_dimension(&self) -> usize {
        3
    }

    open spec fn spec_fixed_dimension(&self) -> Option<usize> {
        Some(3usize)
    }

    fn default_dimension(&self) -> (res: usize) {
        3
    }

    fn fixed_dimension(&self) -> (res: Option<usize>) {
        Some(3)
    }
}

/// The `McCourt10` test function.
#[derive(Debug, Clone, Copy)]
pub struct McCourt10;

impl Dimensions for McCourt10 {
    open spec fn spec_default_dimension(&self) -> usize {
        8
    }

    open spec fn spec_fixed_dimension(&self) -> Option<usize> {
        Some(8usize)
    }

    fn default_dimension(&self) -> (res: usize) {
        8
    }

    fn fixed_dimension(&self) -> (res: Option<usize>) {
        Some(8)
    }
}

/// The `McCourt11` test function.
#[derive(Debug, Clone, Copy)]
pub struct McCourt11;

impl Dimensions for McCourt11 {
    open spec fn spec_default_dimension(&self) -> usize {
        8
    }

    open spec fn spec_fixed_dimension(&self) -> Option<usize> {
        Some(8usize)
    }

    fn default_dimension(&self) -> (res: usize) {
        8
    }

    fn fixed_dimension(&self) -> (res: Option<usize>) {
        Some(8)
    }
}

/// The `McCourt12` test function.
#[derive(Debug, Clone, Copy)]
pub struct McCourt12;

impl Dimensions for McCourt12 {
    open spec fn spec_default_dimension(&self) -> usize {
        7
    }

    open spec fn spec_fixed_dimension(&self) -> Option<usize> {
        Some(7usize)
    }

    fn default_dimension(&self) -> (res: usize) {
        7
    }

    fn fixed_dimension(&self) -> (res: Option<usize>) {
        Some(7)
    }
}

/// The `McCourt13` test function.
#[derive(Debug, Clone, Copy)]
pub struct McCourt13;

impl Dimensions for McCourt13 {
    open spec fn spec_default_dimension(&self) -> usize {
        3
    }

    open spec fn spec_fixed_dimension(&self) -> Option<usize> {
        Some(3usize)
    }

    fn default_dimension(&self) -> (res: usize) {
        3
    }

    fn fixed_dimension(&self) -> (res: Option<usize>) {
        Some(3)
    }
}

/// The `McCourt14` test function.
#[derive(Debug, Clone, Copy)]
pub struct McCourt14;

impl Dimensions for McCourt14 {
    open spec fn spec_default_dimension(&self) -> usize {
        3
    }

    open spec fn spec_fixed_dimension(&self) -> Option<usize> {
        Some(3usize)
    }

    fn default_dimension(&self) -> (res: usize) {
        3
    }

    fn fixed_dimension(&self) -> (res: Option<usize>) {
        Some(3)
    }
}

/// The `McCourt16` test function.
#[derive(Debug, Clone, Copy)]
pub struct McCourt16;

impl Dimensions for McCourt16 {
    open spec fn spec_default_dimension(&self) -> usize {
        4
    }

    open spec fn spec_fixed_dimension(&self) -> Option<usize> {
        Some(4usize)
    }

    fn default_dimension(&self) -> (res: usize) {
        4
    }

    fn fixed_dimension(&self) -> (res: Option<usize>) {
        Some(4)
    }
}

/// The `McCourt17` test function.
#[derive(Debug, Clone, Copy)]
pub struct McCourt17;

impl Dimensions for McCourt17 {
    open spec fn spec_default_dimension(&self) -> usize {
        7
    }

    open spec fn spec_fixed_dimension(&self) -> Option<usize> {
        Some(7usize)
    }

    fn default_dimension(&self) -> (res: usize) {
        7
    }

    fn fixed_dimension(&self) -> (res: Option<usize>) {
        Some(7)
    }
}

/// The `McCourt18` test function.
#[derive(Debug, Clone, Copy)]
pub struct McCourt18;

impl Dimensions for McCourt18 {
    open spec fn spec_default_dimension(&self) -> usize {
        8
    }

    open spec fn spec_fixed_dimension(&self) -> Option<usize> {
        Some(8usize)
    }

    fn default_dimension(&self) -> (res: usize) {
        8
    }

    fn fixed_dimension(&self) -> (res: Option<usize>) {
        Some(8)
    }
}

/// The `McCourt19` test function.
#[derive(Debug, Clone, Copy)]
pub struct McCourt19;

impl Dimensions for McCourt19 {
    open spec fn spec_default_dimension(&self) -> usize {
        2
    }

    open spec fn spec_fixed_dimension(&self) -> Option<usize> {
        Some(2usize)
    }

    fn default_dimension(&self) -> (res: usize) {
        2
    }

    fn fixed_dimension(&self) -> (res: Option<usize>) {
        Some(2)
    }
}

/// The `McCourt20` test function.
#[derive(Debug, Clone, Copy)]
pub struct McCourt20;

impl Dimensions for McCourt20 {
    open spec fn spec_default_dimension(&self) -> usize {
        2
    }

    open spec fn spec_fixed_dimension(&self) -> Option<usize> {
        Some(2usize)
    }

    fn default_dimension(&self) -> (res: usize) {
        2
    }

    fn fixed_dimension(&self) -> (res: Option<usize>) {
        Some(2)
    }
}

/// The `McCourt22` test function.
#[derive(Debug, Clone, Copy)]
pub struct McCourt22;

impl Dimensions for McCourt22 {
    open spec fn spec_default_dimension(&self) -> usize {
        5
    }

    open spec fn spec_fixed_dimension(&self) -> Option<usize> {
        Some(5usize)
    }

    fn default_dimension(&self) -> (res: usize) {
        5
    }

    fn fixed_dimension(&self) -> (res: Option<usize>) {
        Some(5)
    }
}

/// The `McCourt23` test function.
#[derive(Debug, Clone, Copy)]
pub struct McCourt23;

impl Dimensions for McCourt23 {
    open spec fn spec_default_dimension(&self) -> usize {
        6
    }

    open spec fn spec_fixed_dimension(&self) -> Option<usize> {
        Some(6usize)
    }

    fn default_dimension(&self) -> (res: usize) {
        6
    }

    fn fixed_dimension(&self) -> (res: Option<usize>) {
        Some(6)
    }
}

/// The `McCourt26` test function.
#[derive(Debug, Clone, Copy)]
pub struct McCourt26;

impl Dimensions for McCourt26 {
    open spec fn spec_default_dimension(&self) -> usize {
        3
    }

    open spec fn spec_fixed_dimension(&self) -> Option<usize> {
        Some(3usize)
    }

    fn default_dimension(&self) -> (res: usize) {
        3
    }

    fn fixed_dimension(&self) -> (res: Option<usize>) {
        Some(3)
    }
}

/// The `McCourt27` test function.
#[derive(Debug, Clone, Copy)]
pub struct McCourt27;

impl Dimensions for McCourt27 {
    open spec fn spec_default_dimension(&self) -> usize {
        3
    }

    open spec fn spec_fixed_dimension(&self) -> Option<usize> {
        Some(3usize)
    }

    fn default_dimension(&self) -> (res: usize) {
        3
    }

    fn fixed_dimension(&self) -> (res: Option<usize>) {
        Some(3)
    }
}

/// The `McCourt28` test function.
#[derive(Debug, Clone, Copy)]
pub struct McCourt28;

impl Dimensions for McCourt28 {
    open spec fn spec_default_dimension(&self) -> usize {
        4
    }

    open spec fn spec_fixed_dimension(&self) -> Option<usize> {
        Some(4usize)
    }

    fn default_dimension(&self) -> (res: usize) {
        4
    }

    fn fixed_dimension(&self) -> (res: Option<usize>) {
        Some(4)
    }
}

/// Factory of the problem made of a test function.
#[derive(Debug)]
pub struct SigoptProblemFactory {
    /// The test function.
    pub name: Name,
    /// The dimension.
    pub dim: usize,
    /// The input resolution, as text, if one is given.
    pub res: Option<String>,
    /// The dimensions that take only integer values.
    pub int: Vec<usize>,
}

/// The name of the problem: the function's name and dimension, and its resolution when one
/// is given.
pub open spec fn sigopt_problem_name(dim: usize, res: Option<String>) -> Seq<char> {
    "sigopt/evalset/Ackley(dim="@ + decimal(dim as nat) + match res {
        Some(r) => ", res="@ + r@ + ")"@,
        None => ")"@,
    }
}

/// The attributes of the problems built by a crate of the given version.
pub open spec fn sigopt_attrs(crate_version: Seq<char>) -> Map<Seq<char>, Seq<char>> {
    Map::<Seq<char>, Seq<char>>::empty()
        .insert("version"@, "kurobako_problems="@ + crate_version)
        .insert("paper"@, "Dewancker, Ian, et al. \"A strategy for ranking optimization methods using multiple criteria.\" Workshop on Automatic Machine Learning. 2016."@)
        .insert("github"@, "https://github.com/sigopt/evalset"@)
}

/// Parameter `i` of the Ackley problem: `p<i>`, whose bounds are -10 and 30; discrete
/// with the range `[-10, 30)` when `i` is one of the integer dimensions, continuous otherwise.
pub open spec fn ackley_param(v: VariableSpec, i: int, ints: Seq<usize>) -> bool {
    if ints.contains(i as usize) {
        is_discrete_var(v, indexed_name("p"@, i as nat), -10i64, 30i64, Distribution::Uniform)
    } else {
        is_continuous_var(v, indexed_name("p"@, i as nat), true, false, Distribution::Uniform)
    }
}

fn contains_index(xs: &Vec<usize>, x: usize) -> (res: bool)
    ensures
        res == xs@.contains(x),
{
    let mut i: usize = 0;
    while i < xs.len()
        invariant
            i <= xs@.len(),
            forall|k: int| 0 <= k < i ==> xs@[k] != x,
        decreases xs.len() - i,
    {
        if xs[i] == x {
            return true;
        }
        i = i + 1;
    }
    false
}

impl SigoptProblemFactory {
    /// The specification of the problem, built by a crate of the given version: named as
    /// `sigopt_problem_name` says, with its attributes, the parameters `p0`, `p1`, ... as
    /// `ackley_param` says, the one objective `Objective Value` (continuous and unbounded),
    /// and the single step 1.
    ///
    /// Fails with `InvalidInput` when the dimension is 0.
    ///
    /// Only `Ackley` has bounds to build parameters from (see `Name::is_implemented`): the
    /// evaluation set's other functions are not implemented, so no specification is made
    /// for them.
    pub fn specification(&self, crate_version: &str) -> (res: Result<ProblemSpec, ErrorKind>)
        requires
            self.name == Name::Ackley,
        ensures
            match res {
                Ok(spec) => self.dim > 0
                    && spec.name@ == sigopt_problem_name(self.dim, self.res)
                    && spec.attrs@ == sigopt_attrs(crate_version@)
                    && spec.params_domain@.len() == self.dim
                    && (forall|i: int| 0 <= i < self.dim ==> ackley_param(#[trigger] spec.params_domain@[i], i, self.int@))
                    && spec.values_domain@.len() == 1
                    && is_continuous_var(spec.values_domain@[0], "Objective Value"@, true, false, Distribution::Uniform)
                    && spec.steps@ == seq![1u64],
                Err(e) => e == ErrorKind::InvalidInput && self.dim == 0,
            },
    {
        let mut name = "sigopt/evalset/Ackley(dim=".to_owned();
        name.append(u64_to_string(self.dim as u64).as_str());
        match &self.res {
            Some(r) => {
                name.append(", res=");
                name.append(r.as_str());
                name.append(")");
            },
            None => {
                name.append(")");
            },
        }
        let mut params: Vec<VariableSpec> = Vec::new();
        let mut i: usize = 0;
        while i < self.dim
            invariant
                i <= self.dim,
                params@.len() == i,
                forall|k: int| 0 <= k < i ==> ackley_param(#[trigger] params@[k], k, self.int@),
                forall|k: int| 0 <= k < i ==> variable_valid(#[trigger] params@[k]),
            decreases self.dim - i,
        {
            let pname = indexed_name_of("p", i as u64);
            let range = if contains_index(&self.int, i) {
                RangeSpec::Discrete { low: -10, high: 30 }
            } else {
                RangeSpec::Continuous { low_below_high: true, low_positive: false }
            };
            params.push(VariableSpec { name: pname, range, distribution: Distribution::Uniform, constrained: false });
            i = i + 1;
        }
        let value = VariableSpec {
            name: "Objective Value".to_owned(),
            range: RangeSpec::Continuous { low_below_high: true, low_positive: false },
            distribution: Distribution::Uniform,
            constrained: false,
        };
        let ghost values = seq![value];
        let mut version = "kurobako_problems=".to_owned();
        version.append(crate_version);
        let builder = ProblemSpecBuilder::new(name.as_str())
            .attr("version", version.as_str())
            .attr(
                "paper",
                "Dewancker, Ian, et al. \"A strategy for ranking optimization methods using multiple criteria.\" Workshop on Automatic Machine Learning. 2016.",
            )
            .attr("github", "https://github.com/sigopt/evalset")
            .params(params)
            .value(value);
        proof {
            let ps = builder.spec_params();
            assert forall|k: int| 0 <= k < ps.len() implies (#[trigger] ps[k]).name@ == indexed_name("p"@, k as nat) by {
                assert(ackley_param(ps[k], k, self.int@));
            }
            lemma_indexed_vars_distinct(ps, "p"@);
            assert(builder.spec_values() =~= values);
            assert(domain_valid(values));
            assert(valid_steps(seq![1u64]));
        }
        builder.finish()
    }
}

} // verus!
