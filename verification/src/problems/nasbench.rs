//! A problem based on the NAS-Bench-101 benchmark: decoding a parameter vector into the
//! operations and the adjacency matrix of a cell.
use vstd::prelude::*;
use vstd::string::StringExecFns;
use crate::error::ErrorKind;

verus! {

/// The maximum number of edges of a cell.
pub const MAX_EDGES: usize = 9;
/// The number of vertices of a cell.
pub const VERTICES: usize = 7;
/// The number of possible edges of a cell (`VERTICES * (VERTICES - 1) / 2`).
pub const EDGE_KINDS: usize = 21;

/// Recipe of `NasbenchProblem`.
#[derive(Debug)]
pub struct NasbenchProblemRecipe {
    /// Path of the NASBench dataset.
    pub dataset: String,
    /// Encoding type of the NASBench search space.
    pub encoding: Encoding,
}

/// Spec of the NASBench problem that runs in an external script.
#[derive(Debug)]
pub struct NasbenchProblemSpec {
    pub dataset_path: String,
}

/// Encoding method of the NASBench search space.
#[derive(Debug, Clone, Copy, PartialEq, Eq, Structural)]
pub enum Encoding {
    A,
    B,
    C,
}

/// An operation at a vertex of a cell.
#[derive(Debug, Clone, Copy, PartialEq, Eq, Structural)]
pub enum Op {
    Input,
    Conv1x1,
    Conv3x3,
    MaxPool3x3,
    Output,
}

impl Encoding {
    /// The default encoding, `A`.
    pub fn default_encoding() -> (res: Encoding)
        ensures
            res == Encoding::A,
    {
        Encoding::A
    }

    /// Parses `A`, `B` or `C`; any other text is refused with `InvalidInput`.
    pub fn parse(s: &str) -> (res: Result<Encoding, ErrorKind>)
        ensures
            s@ == "A"@ ==> res == Ok::<Encoding, ErrorKind>(Encoding::A),
            s@ == "B"@ ==> res == Ok::<Encoding, ErrorKind>(Encoding::B),
            s@ == "C"@ ==> res == Ok::<Encoding, ErrorKind>(Encoding::C),
            s@ != "A"@ && s@ != "B"@ && s@ != "C"@ ==> res == Err::<Encoding, ErrorKind>(ErrorKind::InvalidInput),
    {
        proof {
            reveal_strlit("A");
            reveal_strlit("B");
            reveal_strlit("C");
            assert("A"@ != "B"@ && "A"@ != "C"@ && "B"@ != "C"@) by {
                assert("A"@[0] != "B"@[0] && "A"@[0] != "C"@[0] && "B"@[0] != "C"@[0]);
            }
        }
        if crate::text::str_eq(s, "A") {
            Ok(Encoding::A)
        } else if crate::text::str_eq(s, "B") {
            Ok(Encoding::B)
        } else if crate::text::str_eq(s, "C") {
            Ok(Encoding::C)
        } else {
            Err(ErrorKind::InvalidInput)
        }
    }
}

/// The operation of a choice index of an `op` parameter.
pub open spec fn op_of(p: u8) -> Op {
    if p == 0 { Op::Conv1x1 } else if p == 1 { Op::Conv3x3 } else { Op::MaxPool3x3 }
}

/// The operations of the cell whose five inner vertices take the choices `params`:
/// the input, the five inner operations, then the output.
///
/// Fails with `InvalidInput` when a choice is not 0, 1 or 2.
pub fn ops(params: &[u8]) -> (res: Result<Vec<Op>, ErrorKind>)
    requires
        params@.len() >= 5,
    ensures
        match res {
            Ok(ops) => (forall|i: int| 0 <= i < 5 ==> params@[i] < 3) && ops@.len() == 7
                && ops@[0] == Op::Input && ops@[6] == Op::Output
                && forall|i: int| 0 <= i < 5 ==> ops@[i + 1] == op_of(#[trigger] params@[i]),
            Err(e) => e == ErrorKind::InvalidInput && exists|i: int| 0 <= i < 5 && #[trigger] params@[i] >= 3,
        },
{
    let mut ops: Vec<Op> = Vec::new();
    ops.push(Op::Input);
    let mut i: usize = 0;
    while i < 5
        invariant
            i <= 5,
            params@.len() >= 5,
            ops@.len() == i + 1,
            ops@[0] == Op::Input,
            forall|j: int| 0 <= j < i ==> params@[j] < 3 && ops@[j + 1] == op_of(#[trigger] params@[j]),
        decreases 5 - i,
    {
        let p = params[i];
        let op = if p == 0 {
            Op::Conv1x1
        } else if p == 1 {
            Op::Conv3x3
        } else if p == 2 {
            Op::MaxPool3x3
        } else {
            return Err(ErrorKind::InvalidInput);
        };
        ops.push(op);
        i = i + 1;
    }
    ops.push(Op::Output);
    Ok(ops)
}

/// The index of the edge from vertex `r` to vertex `c > r`: edges are numbered row by row.
pub open spec fn edge_index(r: int, c: int) -> int {
    r * 6 - r * (r - 1) / 2 + (c - r - 1)
}

/// Edges of encoding A: the edge parameters that are set.
pub fn edges_a(params: &[bool]) -> (res: Vec<bool>)
    ensures
        res@.len() == EDGE_KINDS,
        forall|i: int| 0 <= i < EDGE_KINDS ==> res@[i] == (i < params@.len() && params@[i]),
{
    let mut res: Vec<bool> = Vec::new();
    let mut i: usize = 0;
    while i < EDGE_KINDS
        invariant
            i <= EDGE_KINDS,
            res@.len() == i,
            forall|j: int| 0 <= j < i ==> res@[j] == (j < params@.len() && params@[j]),
        decreases EDGE_KINDS - i,
    {
        res.push(i < params.len() && params[i]);
        i = i + 1;
    }
    res
}

/// Edges of encoding B: each parameter names one edge.
pub fn edges_b(params: &[usize]) -> (res: Vec<bool>)
    ensures
        res@.len() == EDGE_KINDS,
        forall|i: int| 0 <= i < EDGE_KINDS ==> res@[i] == params@.contains(i as usize),
{
    let mut res: Vec<bool> = Vec::new();
    let mut i: usize = 0;
    while i < EDGE_KINDS
        invariant
            i <= EDGE_KINDS,
            res@.len() == i,
            forall|j: int| 0 <= j < i ==> res@[j] == params@.contains(j as usize),
        decreases EDGE_KINDS - i,
    {
        let mut found = false;
        let mut k: usize = 0;
        while k < params.len()
            invariant
                k <= params@.len(),
                found == exists|m: int| 0 <= m < k && params@[m] == i,
            decreases params.len() - k,
        {
            if params[k] == i {
                found = true;
            }
            k = k + 1;
        }
        proof {
            if found {
                let m = choose|m: int| 0 <= m < k && params@[m] == i;
                assert(params@[m] == i);
            }
        }
        res.push(found);
        i = i + 1;
    }
    res
}

/// `(keys[j], j)` comes after `(keys[i], i)` in lexicographic order.
pub open spec fn ranks_above(keys: Seq<u64>, j: int, i: int) -> bool {
    keys[j] > keys[i] || (keys[j] == keys[i] && j > i)
}

/// The number of `j < n` whose `(keys[j], j)` comes after `(keys[i], i)`.
pub open spec fn count_above(keys: Seq<u64>, i: int, n: nat) -> nat
    decreases n,
{
    if n == 0 {
        0
    } else {
        count_above(keys, i, (n - 1) as nat) + if ranks_above(keys, n - 1, i) { 1nat } else { 0nat }
    }
}

proof fn lemma_count_above_ordered(keys: Seq<u64>, i: int, j: int, n: nat)
    requires
        ranks_above(keys, j, i),
        0 <= i,
        0 <= j,
    ensures
        count_above(keys, j, n) + (if j < n { 1nat } else { 0nat }) <= count_above(keys, i, n),
    decreases n,
{
    if n > 0 {
        lemma_count_above_ordered(keys, i, j, (n - 1) as nat);
        let m = n - 1;
        if ranks_above(keys, m, j) {
            assert(ranks_above(keys, m, i));
        }
    }
}

/// Encoding C ranks the edges strictly: of two different edges, the one whose
/// `(key, index)` pair is larger has fewer edges above it, so whenever an edge is
/// selected, every edge ranked above it is selected too.
pub proof fn lemma_edges_c_ranked(keys: Seq<u64>, i: int, j: int, n: nat)
    requires
        0 <= i < n,
        0 <= j < n,
        ranks_above(keys, j, i),
    ensures
        count_above(keys, j, n) < count_above(keys, i, n),
{
    lemma_count_above_ordered(keys, i, j, n);
}

proof fn lemma_count_above_bound(keys: Seq<u64>, i: int, n: nat)
    requires
        0 <= i,
    ensures
        count_above(keys, i, n) + (if i < n { 1nat } else { 0nat }) <= n,
    decreases n,
{
    if n > 0 {
        lemma_count_above_bound(keys, i, (n - 1) as nat);
    }
}

/// The rank of edge `i` among the first `n`: how many of them come after it.
pub open spec fn edge_rank(keys: Seq<u64>, n: nat) -> spec_fn(int) -> int {
    |i: int| count_above(keys, i, n) as int
}

proof fn lemma_ranks_are_a_permutation(keys: Seq<u64>, n: nat)
    ensures
        vstd::set_lib::set_int_range(0, n as int).map(edge_rank(keys, n)) == vstd::set_lib::set_int_range(0, n as int),
        vstd::relations::injective_on(edge_rank(keys, n), vstd::set_lib::set_int_range(0, n as int)),
{
    let a = vstd::set_lib::set_int_range(0, n as int);
    let f = edge_rank(keys, n);
    assert forall|i: int, j: int| a.contains(i) && a.contains(j) && #[trigger] f(i) == #[trigger] f(j) implies i == j by {
        if i != j {
            if ranks_above(keys, j, i) {
                lemma_count_above_ordered(keys, i, j, n);
            } else {
                assert(ranks_above(keys, i, j));
                lemma_count_above_ordered(keys, j, i, n);
            }
        }
    }
    assert(vstd::relations::injective_on(f, a));
    assert forall|c: int| a.map(f).contains(c) implies a.contains(c) by {
        let i = choose|i: int| a.contains(i) && f(i) == c;
        lemma_count_above_bound(keys, i, n);
    }
    vstd::set_lib::lemma_int_range(0, n as int);
    vstd::set_lib::lemma_map_size(a, a.map(f), f);
    vstd::set_lib::lemma_subset_equality(a.map(f), a);
}

/// Encoding C selects exactly `min(num_edges, n)` of `n` edges: the ranks of the edges
/// are `0, 1, ..., n - 1` in some order, and the edges whose rank is below `num_edges`
/// are selected.
pub proof fn lemma_edges_c_count(keys: Seq<u64>, n: nat, num_edges: nat)
    ensures
        Set::new(|i: int| 0 <= i < n && count_above(keys, i, n) < num_edges).finite(),
        Set::new(|i: int| 0 <= i < n && count_above(keys, i, n) < num_edges).len()
            == if num_edges < n { num_edges } else { n },
{
    let a = vstd::set_lib::set_int_range(0, n as int);
    let f = edge_rank(keys, n);
    let m = if num_edges < n { num_edges } else { n };
    let sel = Set::new(|i: int| 0 <= i < n && count_above(keys, i, n) < num_edges);
    lemma_ranks_are_a_permutation(keys, n);
    vstd::set_lib::lemma_int_range(0, n as int);
    assert(sel.subset_of(a));
    vstd::set_lib::lemma_set_subset_finite(a, sel);
    let target = vstd::set_lib::set_int_range(0, m as int);
    assert forall|c: int| #[trigger] sel.map(f).contains(c) <==> target.contains(c) by {
        if sel.map(f).contains(c) {
            let i = choose|i: int| sel.contains(i) && f(i) == c;
            lemma_count_above_bound(keys, i, n);
        }
        if target.contains(c) {
            assert(a.contains(c));
            assert(a.map(f).contains(c));
            let i = choose|i: int| a.contains(i) && f(i) == c;
            assert(sel.contains(i));
        }
    }
    assert(sel.map(f) =~= target);
    assert(vstd::relations::injective_on(f, sel)) by {
        assert forall|i: int, j: int| sel.contains(i) && sel.contains(j) && #[trigger] f(i) == #[trigger] f(j) implies i == j by {
            assert(a.contains(i) && a.contains(j));
        }
    }
    vstd::set_lib::lemma_map_size(sel, target, f);
    vstd::set_lib::lemma_int_range(0, m as int);
}

/// Edges of encoding C: the `num_edges` edges whose `(key, index)` pairs are the largest.
///
/// The keys order the edges as their continuous parameters do.
pub fn edges_c(num_edges: usize, keys: &[u64]) -> (res: Vec<bool>)
    requires
        keys@.len() == EDGE_KINDS,
    ensures
        res@.len() == EDGE_KINDS,
        forall|i: int| 0 <= i < EDGE_KINDS ==> res@[i] == (count_above(keys@, i, EDGE_KINDS as nat) < num_edges),
{
    let mut res: Vec<bool> = Vec::new();
    let mut i: usize = 0;
    while i < EDGE_KINDS
        invariant
            i <= EDGE_KINDS,
            keys@.len() == EDGE_KINDS,
            res@.len() == i,
            forall|j: int| 0 <= j < i ==> res@[j] == (count_above(keys@, j, EDGE_KINDS as nat) < num_edges),
        decreases EDGE_KINDS - i,
    {
        let mut above: usize = 0;
        let mut j: usize = 0;
        while j < EDGE_KINDS
            invariant
                j <= EDGE_KINDS,
                i < EDGE_KINDS,
                keys@.len() == EDGE_KINDS,
                above == count_above(keys@, i as int, j as nat),
                above <= j,
            decreases EDGE_KINDS - j,
        {
            if keys[j] > keys[i] || (keys[j] == keys[i] && j > i) {
                above = above + 1;
            }
            j = j + 1;
        }
        res.push(above < num_edges);
        i = i + 1;
    }
    res
}

/// The upper-triangular adjacency matrix of a cell with the given edges:
/// `m[r][c]` holds exactly when `r < c` and the edge from `r` to `c` is present.
pub fn adjacency_matrix(edges: &Vec<bool>) -> (res: Vec<Vec<bool>>)
    requires
        edges@.len() == EDGE_KINDS,
    ensures
        res@.len() == VERTICES,
        forall|r: int| 0 <= r < VERTICES ==> (#[trigger] res@[r])@.len() == VERTICES,
        forall|r: int, c: int| 0 <= r < VERTICES && 0 <= c < VERTICES ==> (#[trigger] res@[r]@[c]) == (r < c && edges@[edge_index(r, c)]),
{
    let mut matrix: Vec<Vec<bool>> = Vec::new();
    let mut r: usize = 0;
    let mut base: usize = 0;
    while r < VERTICES
        invariant
            r <= VERTICES,
            edges@.len() == EDGE_KINDS,
            base == r * 6 - r * (r - 1) / 2,
            matrix@.len() == r,
            forall|a: int| 0 <= a < r ==> (#[trigger] matrix@[a])@.len() == VERTICES,
            forall|a: int, c: int| 0 <= a < r && 0 <= c < VERTICES ==> (#[trigger] matrix@[a]@[c]) == (a < c && edges@[edge_index(a, c)]),
        decreases VERTICES - r,
    {
        let mut row: Vec<bool> = Vec::new();
        let mut c: usize = 0;
        while c < VERTICES
            invariant
                c <= VERTICES,
                r < VERTICES,
                edges@.len() == EDGE_KINDS,
                base == r * 6 - r * (r - 1) / 2,
                row@.len() == c,
                forall|d: int| 0 <= d < c ==> row@[d] == (r < d && edges@[edge_index(r as int, d)]),
            decreases VERTICES - c,
        {
            if r < c {
                proof {
                    assert(edge_index(r as int, c as int) < 21) by (nonlinear_arith)
                        requires r < c < 7, edge_index(r as int, c as int) == r * 6 - r * (r - 1) / 2 + (c - r - 1);
                    assert(0 <= edge_index(r as int, c as int)) by (nonlinear_arith)
                        requires r < c < 7, edge_index(r as int, c as int) == r * 6 - r * (r - 1) / 2 + (c - r - 1);
                }
                row.push(edges[base + (c - r - 1)]);
            } else {
                row.push(false);
            }
            c = c + 1;
        }
        matrix.push(row);
        proof {
            assert(r + 1 <= 7);
            assert((r + 1) * 6 - (r + 1) * r / 2 == r * 6 - r * (r - 1) / 2 + (6 - r)) by (nonlinear_arith)
                requires r < 7;
        }
        base = base + (6 - r);
        r = r + 1;
    }
    matrix
}

/// The position of the first of a model's recorded epochs (listed in increasing order)
/// that is at least the requested step, the step being taken in its `u8` form (modulo 256).
pub fn epoch_for_step(epochs: &Vec<u8>, next_step: u64) -> (res: Option<usize>)
    ensures
        match res {
            Some(i) => i < epochs@.len() && epochs@[i as int] >= next_step % 256
                && forall|j: int| 0 <= j < i ==> epochs@[j] < next_step % 256,
            None => forall|j: int| 0 <= j < epochs@.len() ==> epochs@[j] < next_step % 256,
        },
{
    let step = (next_step % 256) as u8;
    let mut i: usize = 0;
    while i < epochs.len()
        invariant
            i <= epochs@.len(),
            step == next_step % 256,
            forall|j: int| 0 <= j < i ==> epochs@[j] < step,
        decreases epochs.len() - i,
    {
        if epochs[i] >= step {
            return Some(i);
        }
        i = i + 1;
    }
    None
}

/// Which of the `candidates` recorded runs of an epoch an evaluator reads: its sample
/// index modulo their number.
pub fn sample_position(sample_index: usize, candidates: usize) -> (res: usize)
    requires
        candidates > 0,
    ensures
        res == sample_index % candidates,
        res < candidates,
{
    sample_index % candidates
}

/// The letter of an encoding.
pub open spec fn encoding_letter(e: Encoding) -> Seq<char> {
    match e {
        Encoding::A => "A"@,
        Encoding::B => "B"@,
        Encoding::C => "C"@,
    }
}

impl Encoding {
    /// The name of the problem with this encoding: `NASBench (<letter>)`.
    pub fn problem_name(&self) -> (res: String)
        ensures
            res@ == "NASBench ("@ + encoding_letter(*self) + ")"@,
    {
        let mut s = "NASBench (".to_owned();
        s.append(match self {
            Encoding::A => "A",
            Encoding::B => "B",
            Encoding::C => "C",
        });
        s.append(")");
        s
    }
}

} // verus!
