//! String attributes attached to solver and problem specifications.
use vstd::prelude::*;
use vstd::string::StrSliceExecFns;

verus! {

/// Whether `k` is the key of some entry of `s`.
pub open spec fn has_key(s: Seq<(String, String)>, k: Seq<char>) -> bool {
    exists|i: int| 0 <= i < s.len() && (#[trigger] s[i]).0@ == k
}

/// No two entries of `s` share a key.
pub open spec fn keys_unique(s: Seq<(String, String)>) -> bool {
    forall|i: int, j: int| 0 <= i < s.len() && 0 <= j < s.len() && i != j ==> (#[trigger] s[i]).0@ != (#[trigger] s[j]).0@
}

/// The map that a sequence of entries with distinct keys stands for.
pub open spec fn entries_map(s: Seq<(String, String)>) -> Map<Seq<char>, Seq<char>> {
    Map::new(
        |k: Seq<char>| has_key(s, k),
        |k: Seq<char>| s[choose|i: int| 0 <= i < s.len() && (#[trigger] s[i]).0@ == k].1@,
    )
}

/// `a` comes before `b` in the order of strings: at the first position where they differ
/// `a` has the smaller character, or `a` is a proper prefix of `b`. (This is the order of
/// `String`, which compares UTF-8 bytes and so orders by characters.)
pub open spec fn key_lt(a: Seq<char>, b: Seq<char>) -> bool
    decreases a.len(),
{
    if b.len() == 0 {
        false
    } else if a.len() == 0 {
        true
    } else if a[0] != b[0] {
        (a[0] as int) < (b[0] as int)
    } else {
        key_lt(a.drop_first(), b.drop_first())
    }
}

/// The entries are in increasing order of their keys.
pub open spec fn keys_sorted(s: Seq<(String, String)>) -> bool {
    forall|i: int, j: int| 0 <= i < j < s.len() ==> key_lt((#[trigger] s[i]).0@, (#[trigger] s[j]).0@)
}

proof fn lemma_key_lt_irreflexive(a: Seq<char>)
    ensures
        !key_lt(a, a),
    decreases a.len(),
{
    if a.len() > 0 {
        lemma_key_lt_irreflexive(a.drop_first());
    }
}

proof fn lemma_key_lt_transitive(a: Seq<char>, b: Seq<char>, c: Seq<char>)
    requires
        key_lt(a, b),
        key_lt(b, c),
    ensures
        key_lt(a, c),
    decreases a.len(),
{
    if a.len() > 0 && b.len() > 0 && c.len() > 0 && a[0] == b[0] && b[0] == c[0] {
        lemma_key_lt_transitive(a.drop_first(), b.drop_first(), c.drop_first());
    }
}

proof fn lemma_key_lt_total(a: Seq<char>, b: Seq<char>)
    requires
        a != b,
    ensures
        key_lt(a, b) || key_lt(b, a),
    decreases a.len(),
{
    if a.len() > 0 && b.len() > 0 && a[0] == b[0] {
        if a.drop_first() == b.drop_first() {
            assert(a =~= seq![a[0]] + a.drop_first());
            assert(b =~= seq![b[0]] + b.drop_first());
        }
        lemma_key_lt_total(a.drop_first(), b.drop_first());
    } else if a.len() > 0 && b.len() > 0 {
        assert((a[0] as int) != (b[0] as int));
    } else if a.len() == 0 && b.len() == 0 {
        assert(a =~= b);
    }
}

proof fn lemma_sorted_unique(s: Seq<(String, String)>)
    requires
        keys_sorted(s),
    ensures
        keys_unique(s),
{
    assert forall|i: int, j: int| 0 <= i < s.len() && 0 <= j < s.len() && i != j implies (#[trigger] s[i]).0@ != (#[trigger] s[j]).0@ by {
        lemma_key_lt_irreflexive(s[i].0@);
        if i < j {
            assert(key_lt(s[i].0@, s[j].0@));
        } else {
            assert(key_lt(s[j].0@, s[i].0@));
        }
    }
}

proof fn lemma_key_lt_skip(a: Seq<char>, b: Seq<char>, k: int)
    requires
        0 <= k < a.len(),
        k < b.len(),
        a[k] == b[k],
    ensures
        key_lt(a.skip(k), b.skip(k)) == key_lt(a.skip(k + 1), b.skip(k + 1)),
{
    assert(a.skip(k).drop_first() =~= a.skip(k + 1));
    assert(b.skip(k).drop_first() =~= b.skip(k + 1));
    assert(a.skip(k)[0] == a[k]);
    assert(b.skip(k)[0] == b[k]);
}

/// Compares two keys in the order of `key_lt`: negative when `a` comes first, zero when
/// they are equal, positive when `b` comes first.
fn compare_keys(a: &str, b: &str) -> (res: i8)
    ensures
        res < 0 <==> key_lt(a@, b@),
        res == 0 <==> a@ == b@,
        res > 0 <==> key_lt(b@, a@),
{
    let n = a.unicode_len();
    let m = b.unicode_len();
    let mut k: usize = 0;
    proof {
        assert(a@.skip(0) =~= a@);
        assert(b@.skip(0) =~= b@);
    }
    while k < n && k < m
        invariant
            k <= n,
            k <= m,
            n == a@.len(),
            m == b@.len(),
            forall|j: int| 0 <= j < k ==> a@[j] == b@[j],
            key_lt(a@, b@) == key_lt(a@.skip(k as int), b@.skip(k as int)),
            key_lt(b@, a@) == key_lt(b@.skip(k as int), a@.skip(k as int)),
        decreases n - k,
    {
        let x = a.get_char(k);
        let y = b.get_char(k);
        if x != y {
            proof {
                assert(a@.skip(k as int)[0] == x);
                assert(b@.skip(k as int)[0] == y);
                lemma_key_lt_irreflexive(a@);
                if (x as u32) < (y as u32) {
                    assert(key_lt(a@.skip(k as int), b@.skip(k as int)));
                } else {
                    assert(key_lt(b@.skip(k as int), a@.skip(k as int)));
                }
                assert(a@[k as int] != b@[k as int]);
            }
            if (x as u32) < (y as u32) {
                return -1;
            } else {
                return 1;
            }
        }
        proof {
            lemma_key_lt_skip(a@, b@, k as int);
            lemma_key_lt_skip(b@, a@, k as int);
        }
        k = k + 1;
    }
    proof {
        lemma_key_lt_irreflexive(a@);
        lemma_key_lt_irreflexive(b@);
    }
    if n == m {
        assert(a@ =~= b@);
        0
    } else if n < m {
        assert(a@.skip(k as int).len() == 0);
        assert(a@ != b@);
        -1
    } else {
        assert(b@.skip(k as int).len() == 0);
        assert(a@ != b@);
        1
    }
}

/// A map from attribute names to attribute values.
#[derive(Debug)]
pub struct Attributes {
    entries: Vec<(String, String)>,
}

impl View for Attributes {
    type V = Map<Seq<char>, Seq<char>>;

    closed spec fn view(&self) -> Map<Seq<char>, Seq<char>> {
        entries_map(self.entries@)
    }
}

proof fn lemma_entries_map_index(s: Seq<(String, String)>, i: int)
    requires
        keys_unique(s),
        0 <= i < s.len(),
    ensures
        entries_map(s).contains_key(s[i].0@),
        entries_map(s)[s[i].0@] == s[i].1@,
{
    let k = s[i].0@;
    assert(has_key(s, k));
    let j = choose|j: int| 0 <= j < s.len() && (#[trigger] s[j]).0@ == k;
    assert(s[j].0@ == k);
    assert(j == i);
}

impl Attributes {
    #[verifier::type_invariant]
    closed spec fn wf(self) -> bool {
        keys_sorted(self.entries@)
    }

    /// Makes an empty attribute map.
    pub fn new() -> (res: Self)
        ensures
            res@ == Map::<Seq<char>, Seq<char>>::empty(),
    {
        let res = Attributes { entries: Vec::new() };
        assert(res@ =~= Map::<Seq<char>, Seq<char>>::empty());
        res
    }

    /// The number of attributes.
    pub fn len(&self) -> (res: usize)
        ensures
            res as nat == self@.len(),
    {
        proof {
            use_type_invariant(self);
            lemma_sorted_unique(self.entries@);
            let s = self.entries@;
            let keys = s.map_values(|e: (String, String)| e.0@);
            assert forall|i: int, j: int| 0 <= i < keys.len() && 0 <= j < keys.len() && i != j implies keys[i] != keys[j] by {
                assert(s[i].0@ != s[j].0@);
            }
            assert(keys.no_duplicates());
            keys.unique_seq_to_set();
            assert(self@.dom() =~= keys.to_set()) by {
                assert forall|k: Seq<char>| self@.dom().contains(k) implies keys.to_set().contains(k) by {
                    let i = choose|i: int| 0 <= i < s.len() && (#[trigger] s[i]).0@ == k;
                    assert(keys[i] == k);
                }
                assert forall|k: Seq<char>| keys.to_set().contains(k) implies self@.dom().contains(k) by {
                    let i = choose|i: int| 0 <= i < keys.len() && keys[i] == k;
                    assert(s[i].0@ == k);
                }
            }
        }
        self.entries.len()
    }

    /// Returns the value of the attribute named `key`, if any.
    pub fn get(&self, key: &str) -> (res: Option<String>)
        ensures
            match res {
                Some(v) => self@.contains_key(key@) && self@[key@] == v@,
                None => !self@.contains_key(key@),
            },
    {
        proof {
            use_type_invariant(self);
            lemma_sorted_unique(self.entries@);
        }
        let key_s = key.to_owned();
        assert(key_s@ == key@);
        let mut i: usize = 0;
        while i < self.entries.len()
            invariant
                i <= self.entries@.len(),
                keys_unique(self.entries@),
                key_s@ == key@,
                forall|j: int| 0 <= j < i ==> (#[trigger] self.entries@[j]).0@ != key_s@,
            decreases self.entries.len() - i,
        {
            if self.entries[i].0.eq(&key_s) {
                proof {
                    lemma_entries_map_index(self.entries@, i as int);
                }
                let v = self.entries[i].1.clone();
                assert(self@ == entries_map(self.entries@));
                assert(self.entries@[i as int].0@ == key@);
                assert(v@ == self.entries@[i as int].1@);
                return Some(v);
            }
            i = i + 1;
        }
        None
    }

    /// Sets the attribute named `key` to `value`, replacing any earlier value.
    pub fn insert(self, key: &str, value: &str) -> (res: Self)
        ensures
            res@ == self@.insert(key@, value@),
    {
        proof {
            use_type_invariant(&self);
            lemma_sorted_unique(self.entries@);
        }
        let Attributes { mut entries } = self;
        let ghost old_entries = entries@;
        let key_s = key.to_owned();
        let value_s = value.to_owned();
        let mut i: usize = 0;
        while i < entries.len()
            invariant
                i <= entries@.len(),
                entries@ == old_entries,
                forall|j: int| 0 <= j < i ==> key_lt((#[trigger] old_entries[j]).0@, key@),
            ensures
                i <= entries@.len(),
                entries@ == old_entries,
                forall|j: int| 0 <= j < i ==> key_lt((#[trigger] old_entries[j]).0@, key@),
                i < entries@.len() ==> !key_lt(old_entries[i as int].0@, key@),
            decreases entries.len() - i,
        {
            let c = compare_keys(entries[i].0.as_str(), key);
            if c >= 0 {
                break;
            }
            i = i + 1;
        }
        let ghost k = key_s@;
        let ghost v = value_s@;
        if i < entries.len() && crate::text::str_eq(entries[i].0.as_str(), key) {
            entries.set(i, (key_s, value_s));
            proof {
                let s = entries@;
                assert(keys_sorted(s)) by {
                    assert forall|a: int, b: int| 0 <= a < b < s.len() implies key_lt((#[trigger] s[a]).0@, (#[trigger] s[b]).0@) by {
                        assert(key_lt(old_entries[a].0@, old_entries[b].0@));
                    }
                }
                lemma_sorted_unique(s);
                assert forall|kk: Seq<char>| #[trigger] entries_map(s).contains_key(kk) == entries_map(old_entries).insert(k, v).contains_key(kk) by {
                    if has_key(old_entries, kk) {
                        let j = choose|j: int| 0 <= j < old_entries.len() && (#[trigger] old_entries[j]).0@ == kk;
                        assert(s[j].0@ == kk);
                    }
                    if has_key(s, kk) {
                        let j = choose|j: int| 0 <= j < s.len() && (#[trigger] s[j]).0@ == kk;
                        assert(old_entries[j].0@ == kk);
                    }
                }
                assert forall|kk: Seq<char>| #[trigger] entries_map(s).contains_key(kk) implies entries_map(s)[kk] == entries_map(old_entries).insert(k, v)[kk] by {
                    let j = choose|j: int| 0 <= j < s.len() && (#[trigger] s[j]).0@ == kk;
                    lemma_entries_map_index(s, j);
                    if j != i {
                        lemma_entries_map_index(old_entries, j);
                    }
                }
                assert(entries_map(s) =~= entries_map(old_entries).insert(k, v));
            }
            return Attributes { entries };
        }
        entries.insert(i, (key_s, value_s));
        proof {
            let s = entries@;
            let n = i as int;
            assert(s == old_entries.insert(n, (key_s, value_s)));
            assert forall|j: int| n <= j < old_entries.len() implies key_lt(k, (#[trigger] old_entries[j]).0@) by {
                assert(old_entries[n].0@ != k);
                lemma_key_lt_total(old_entries[n].0@, k);
                if j > n {
                    assert(key_lt(old_entries[n].0@, old_entries[j].0@));
                    lemma_key_lt_transitive(k, old_entries[n].0@, old_entries[j].0@);
                }
            }
            assert(keys_sorted(s)) by {
                assert forall|a: int, b: int| 0 <= a < b < s.len() implies key_lt((#[trigger] s[a]).0@, (#[trigger] s[b]).0@) by {
                    if b < n {
                        assert(key_lt(old_entries[a].0@, old_entries[b].0@));
                    } else if b == n {
                        assert(key_lt(old_entries[a].0@, k));
                    } else if a < n {
                        assert(key_lt(old_entries[a].0@, k));
                        assert(key_lt(k, old_entries[b - 1].0@));
                        lemma_key_lt_transitive(old_entries[a].0@, k, old_entries[b - 1].0@);
                    } else if a == n {
                        assert(key_lt(k, old_entries[b - 1].0@));
                    } else {
                        assert(key_lt(old_entries[a - 1].0@, old_entries[b - 1].0@));
                    }
                }
            }
            lemma_sorted_unique(s);
            assert forall|j: int| 0 <= j < old_entries.len() implies (#[trigger] old_entries[j]).0@ != k by {
                lemma_key_lt_irreflexive(k);
                if j < n {
                    assert(key_lt(old_entries[j].0@, k));
                } else {
                    assert(key_lt(k, old_entries[j].0@));
                }
            }
            assert forall|kk: Seq<char>| #[trigger] entries_map(s).contains_key(kk) == entries_map(old_entries).insert(k, v).contains_key(kk) by {
                if has_key(old_entries, kk) {
                    let j = choose|j: int| 0 <= j < old_entries.len() && (#[trigger] old_entries[j]).0@ == kk;
                    if j < n {
                        assert(s[j].0@ == kk);
                    } else {
                        assert(s[j + 1].0@ == kk);
                    }
                }
                if kk == k {
                    assert(s[n].0@ == kk);
                }
                if has_key(s, kk) && kk != k {
                    let j = choose|j: int| 0 <= j < s.len() && (#[trigger] s[j]).0@ == kk;
                    if j < n {
                        assert(old_entries[j].0@ == kk);
                    } else {
                        assert(old_entries[j - 1].0@ == kk);
                    }
                }
            }
            assert forall|kk: Seq<char>| #[trigger] entries_map(s).contains_key(kk) implies entries_map(s)[kk] == entries_map(old_entries).insert(k, v)[kk] by {
                let j = choose|j: int| 0 <= j < s.len() && (#[trigger] s[j]).0@ == kk;
                lemma_entries_map_index(s, j);
                if j < n {
                    lemma_entries_map_index(old_entries, j);
                } else if j > n {
                    lemma_entries_map_index(old_entries, j - 1);
                }
            }
            assert(entries_map(s) =~= entries_map(old_entries).insert(k, v));
        }
        Attributes { entries }
    }

    /// All the attributes as `(name, value)` pairs, each name once, in increasing order of
    /// the names.
    pub fn to_vec(&self) -> (res: Vec<(String, String)>)
        ensures
            keys_sorted(res@),
            keys_unique(res@),
            entries_map(res@) == self@,
    {
        proof {
            use_type_invariant(self);
            lemma_sorted_unique(self.entries@);
        }
        let mut res: Vec<(String, String)> = Vec::new();
        let mut i: usize = 0;
        while i < self.entries.len()
            invariant
                i <= self.entries@.len(),
                res@.len() == i,
                forall|j: int| 0 <= j < i ==> (#[trigger] res@[j]).0@ == self.entries@[j].0@ && res@[j].1@ == self.entries@[j].1@,
            decreases self.entries.len() - i,
        {
            let k = self.entries[i].0.clone();
            let v = self.entries[i].1.clone();
            res.push((k, v));
            i = i + 1;
        }
        proof {
            let s = self.entries@;
            let r = res@;
            assert(keys_sorted(r)) by {
                assert forall|a: int, b: int| 0 <= a < b < r.len() implies key_lt((#[trigger] r[a]).0@, (#[trigger] r[b]).0@) by {
                    assert(key_lt(s[a].0@, s[b].0@));
                }
            }
            assert(keys_unique(r)) by {
                assert forall|a: int, b: int| 0 <= a < r.len() && 0 <= b < r.len() && a != b implies (#[trigger] r[a]).0@ != (#[trigger] r[b]).0@ by {
                    assert(s[a].0@ != s[b].0@);
                }
            }
            assert forall|kk: Seq<char>| #[trigger] entries_map(r).contains_key(kk) == entries_map(s).contains_key(kk) by {
                if has_key(s, kk) {
                    let j = choose|j: int| 0 <= j < s.len() && (#[trigger] s[j]).0@ == kk;
                    assert(r[j].0@ == kk);
                }
                if has_key(r, kk) {
                    let j = choose|j: int| 0 <= j < r.len() && (#[trigger] r[j]).0@ == kk;
                    assert(s[j].0@ == kk);
                }
            }
            assert forall|kk: Seq<char>| #[trigger] entries_map(r).contains_key(kk) implies entries_map(r)[kk] == entries_map(s)[kk] by {
                let j = choose|j: int| 0 <= j < r.len() && (#[trigger] r[j]).0@ == kk;
                lemma_entries_map_index(r, j);
                lemma_entries_map_index(s, j);
            }
            assert(entries_map(r) =~= entries_map(s));
        }
        res
    }
}

/// Reading an attribute back after `insert` gives the value just written, and `insert`
/// leaves every other attribute as it was.
pub proof fn lemma_get_after_insert(
    m: Map<Seq<char>, Seq<char>>,
    key: Seq<char>,
    value: Seq<char>,
    other: Seq<char>,
)
    ensures
        m.insert(key, value).contains_key(key),
        m.insert(key, value)[key] == value,
        other != key ==> (m.insert(key, value).contains_key(other) <==> m.contains_key(other)),
        other != key && m.contains_key(other) ==> m.insert(key, value)[other] == m[other],
{
}

} // verus!
