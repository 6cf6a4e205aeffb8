//! Text helpers: string comparison, concatenation, joining and decimal formatting of integers.
use vstd::prelude::*;
use vstd::string::StringExecFns;
use vstd::string::StrSliceExecFns;

verus! {

/// Returns `true` if the two strings hold the same characters.
pub fn str_eq(a: &str, b: &str) -> (res: bool)
    ensures
        res == (a@ == b@),
{
    let a = a.to_owned();
    let b = b.to_owned();
    a.eq(&b)
}

/// The concatenation of two strings.
pub fn concat(a: &str, b: &str) -> (res: String)
    ensures
        res@ == a@ + b@,
{
    let mut res = a.to_owned();
    res.append(b);
    res
}

/// The decimal digit character of `d`.
pub open spec fn digit_char(d: nat) -> char {
    if d == 0 { '0' }
    else if d == 1 { '1' }
    else if d == 2 { '2' }
    else if d == 3 { '3' }
    else if d == 4 { '4' }
    else if d == 5 { '5' }
    else if d == 6 { '6' }
    else if d == 7 { '7' }
    else if d == 8 { '8' }
    else { '9' }
}

/// The decimal representation of `n`, without leading zeros.
pub open spec fn decimal(n: nat) -> Seq<char>
    decreases n,
{
    if n < 10 {
        seq![digit_char(n)]
    } else {
        decimal(n / 10).push(digit_char(n % 10))
    }
}

proof fn lemma_decimal_len(n: nat)
    ensures
        decimal(n).len() >= 1,
        n >= 10 ==> decimal(n).len() >= 2,
    decreases n,
{
    if n >= 10 {
        lemma_decimal_len(n / 10);
    }
}

/// Different numbers have different decimal representations.
pub proof fn lemma_decimal_injective(a: nat, b: nat)
    ensures
        decimal(a) == decimal(b) ==> a == b,
    decreases a,
{
    lemma_decimal_len(a);
    lemma_decimal_len(b);
    if decimal(a) == decimal(b) {
        if a < 10 && b < 10 {
            assert(decimal(a)[0] == decimal(b)[0]);
        } else if a >= 10 && b >= 10 {
            let da = decimal(a);
            assert(da.drop_last() == decimal(a / 10));
            assert(decimal(b).drop_last() == decimal(b / 10));
            assert(da.last() == digit_char(a % 10));
            assert(decimal(b).last() == digit_char(b % 10));
            lemma_decimal_injective(a / 10, b / 10);
        } else {
            assert(decimal(a).len() != decimal(b).len());
        }
    }
}

/// `prefix` followed by the decimal representation of `i`.
pub open spec fn indexed_name(prefix: Seq<char>, i: nat) -> Seq<char> {
    prefix + decimal(i)
}

/// Names made of one prefix and different numbers are different.
pub proof fn lemma_indexed_names_distinct(prefix: Seq<char>, i: nat, j: nat)
    ensures
        i != j ==> indexed_name(prefix, i) != indexed_name(prefix, j),
{
    if indexed_name(prefix, i) == indexed_name(prefix, j) {
        let n = prefix.len() as int;
        assert(indexed_name(prefix, i).subrange(n, indexed_name(prefix, i).len() as int) =~= decimal(i));
        assert(indexed_name(prefix, j).subrange(n, indexed_name(prefix, j).len() as int) =~= decimal(j));
        lemma_decimal_injective(i, j);
    }
}

/// `prefix` followed by the decimal representation of `i`.
pub fn indexed_name_of(prefix: &str, i: u64) -> (res: String)
    ensures
        res@ == indexed_name(prefix@, i as nat),
{
    concat(prefix, u64_to_string(i).as_str())
}

/// The decimal representation of `x`, with a leading `-` when it is negative.
pub open spec fn signed_decimal(x: int) -> Seq<char> {
    if x < 0 {
        seq!['-'] + decimal((-x) as nat)
    } else {
        decimal(x as nat)
    }
}

fn digit_str(d: u64) -> (res: &'static str)
    requires
        d < 10,
    ensures
        res@ == seq![digit_char(d as nat)],
{
    proof {
        reveal_strlit("0");
        reveal_strlit("1");
        reveal_strlit("2");
        reveal_strlit("3");
        reveal_strlit("4");
        reveal_strlit("5");
        reveal_strlit("6");
        reveal_strlit("7");
        reveal_strlit("8");
        reveal_strlit("9");
    }
    if d == 0 { "0" }
    else if d == 1 { "1" }
    else if d == 2 { "2" }
    else if d == 3 { "3" }
    else if d == 4 { "4" }
    else if d == 5 { "5" }
    else if d == 6 { "6" }
    else if d == 7 { "7" }
    else if d == 8 { "8" }
    else { "9" }
}

/// The decimal representation of an unsigned integer, as `to_string` gives it.
pub fn u64_to_string(n: u64) -> (res: String)
    ensures
        res@ == decimal(n as nat),
    decreases n,
{
    if n < 10 {
        digit_str(n).to_owned()
    } else {
        let mut res = u64_to_string(n / 10);
        res.append(digit_str(n % 10));
        res
    }
}

/// The decimal representation of a signed integer, as `to_string` gives it.
pub fn i64_to_string(x: i64) -> (res: String)
    ensures
        res@ == signed_decimal(x as int),
{
    if x < 0 {
        let magnitude: u64 = if x == i64::MIN {
            9223372036854775808u64
        } else {
            (-x) as u64
        };
        let mut res = "-".to_owned();
        proof {
            reveal_strlit("-");
        }
        let digits = u64_to_string(magnitude);
        res.append(digits.as_str());
        res
    } else {
        u64_to_string(x as u64)
    }
}

/// The concatenation of `parts`, with `sep` between each two consecutive parts.
pub open spec fn join(parts: Seq<Seq<char>>, sep: Seq<char>) -> Seq<char>
    decreases parts.len(),
{
    if parts.len() == 0 {
        Seq::empty()
    } else if parts.len() == 1 {
        parts[0]
    } else {
        join(parts.drop_last(), sep) + sep + parts.last()
    }
}

/// The views of a sequence of strings.
pub open spec fn views(parts: Seq<String>) -> Seq<Seq<char>> {
    parts.map_values(|s: String| s@)
}

/// Joins `parts` with `sep` between each two consecutive parts.
pub fn join_strings(parts: &Vec<String>, sep: &str) -> (res: String)
    ensures
        res@ == join(views(parts@), sep@),
{
    let mut res = String::new();
    let mut i: usize = 0;
    while i < parts.len()
        invariant
            i <= parts@.len(),
            res@ == join(views(parts@).take(i as int), sep@),
        decreases parts.len() - i,
    {
        let ghost prev = views(parts@).take(i as int);
        let ghost next = views(parts@).take(i + 1);
        assert(next.drop_last() == prev);
        assert(next.last() == parts@[i as int]@);
        if i != 0 {
            res.append(sep);
        }
        res.append(parts[i].as_str());
        i = i + 1;
    }
    assert(views(parts@).take(parts@.len() as int) == views(parts@));
    res
}

} // verus!

verus! {

/// The position of the first occurrence of `c` in `s`, if any.
pub open spec fn first_index_of(s: Seq<char>, c: char) -> Option<int> {
    if exists|i: int| 0 <= i < s.len() && s[i] == c {
        Some(choose|i: int| 0 <= i < s.len() && s[i] == c && forall|j: int| 0 <= j < i ==> s[j] != c)
    } else {
        None
    }
}

/// Splits `s` at the first occurrence of `sep`: the text before it, and the text after it
/// when `sep` occurs (as `splitn(2, sep)` does).
pub fn split_once(s: &str, sep: char) -> (res: (String, Option<String>))
    ensures
        match res.1 {
            Some(tail) => exists|k: int| 0 <= k < s@.len() && s@[k] == sep
                && (forall|j: int| 0 <= j < k ==> s@[j] != sep)
                && res.0@ == s@.subrange(0, k) && tail@ == s@.subrange(k + 1, s@.len() as int),
            None => (forall|j: int| 0 <= j < s@.len() ==> s@[j] != sep) && res.0@ == s@,
        },
{
    let n = s.unicode_len();
    let mut k: usize = 0;
    while k < n
        invariant
            k <= n,
            n == s@.len(),
            forall|j: int| 0 <= j < k ==> s@[j] != sep,
        decreases n - k,
    {
        if s.get_char(k) == sep {
            let head = s.substring_char(0, k).to_owned();
            let tail = s.substring_char(k + 1, n).to_owned();
            return (head, Some(tail));
        }
        k = k + 1;
    }
    let head = s.to_owned();
    (head, None)
}

proof fn lemma_first_index(s: Seq<char>, c: char, k: int)
    requires
        0 <= k < s.len(),
        s[k] == c,
        forall|j: int| 0 <= j < k ==> s[j] != c,
    ensures
        first_index_of(s, c) == Some(k),
{
    let i = choose|i: int| 0 <= i < s.len() && s[i] == c && forall|j: int| 0 <= j < i ==> s[j] != c;
    assert(0 <= k < s.len() && s[k] == c && forall|j: int| 0 <= j < k ==> s[j] != c);
    if i < k {
        assert(s[i] != c);
    }
    if k < i {
        assert(s[k] != c);
    }
}

/// The `n`-th (from zero) of the fields of `s` that `sep` separates, if `s` has that many.
pub open spec fn nth_field(s: Seq<char>, sep: char, n: nat) -> Option<Seq<char>>
    decreases n,
{
    match first_index_of(s, sep) {
        Some(k) => if n == 0 {
            Some(s.subrange(0, k))
        } else {
            nth_field(s.subrange(k + 1, s.len() as int), sep, (n - 1) as nat)
        },
        None => if n == 0 { Some(s) } else { None },
    }
}

/// The `n`-th (from zero) of the fields of `s` that `sep` separates, as `s.split(sep).nth(n)`
/// gives it.
pub fn split_nth(s: &str, sep: char, n: usize) -> (res: Option<String>)
    ensures
        match res {
            Some(f) => nth_field(s@, sep, n as nat) == Some(f@),
            None => nth_field(s@, sep, n as nat) is None,
        },
    decreases n,
{
    let (head, tail) = split_once(s, sep);
    proof {
        if tail is Some {
            let k = choose|k: int| 0 <= k < s@.len() && s@[k] == sep
                && (forall|j: int| 0 <= j < k ==> s@[j] != sep)
                && head@ == s@.subrange(0, k) && tail->Some_0@ == s@.subrange(k + 1, s@.len() as int);
            lemma_first_index(s@, sep, k);
        } else {
            assert(!(exists|i: int| 0 <= i < s@.len() && s@[i] == sep));
        }
    }
    if n == 0 {
        return Some(head);
    }
    match tail {
        Some(t) => split_nth(t.as_str(), sep, n - 1),
        None => None,
    }
}

} // verus!
