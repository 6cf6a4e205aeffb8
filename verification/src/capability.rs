//! Solver capabilities.
use vstd::prelude::*;

verus! {

/// Solver capability.
#[derive(Debug, Clone, Copy, PartialEq, Eq, Structural, Hash, PartialOrd, Ord)]
pub enum Capability {
    UniformContinuous,
    UniformDiscrete,
    LogUniformContinuous,
    LogUniformDiscrete,
    Categorical,
    /// Conditional search space.
    ///
    /// If a problem has one or more constrainted parameters, the search space of the problem is conditional.
    Conditional,
    MultiObjective,
    Concurrent,
}

/// The number of distinct capabilities.
pub const NUM_CAPABILITIES: usize = 8;

/// The position of a capability in the declaration order (which is also its order).
pub open spec fn rank(c: Capability) -> int {
    match c {
        Capability::UniformContinuous => 0,
        Capability::UniformDiscrete => 1,
        Capability::LogUniformContinuous => 2,
        Capability::LogUniformDiscrete => 3,
        Capability::Categorical => 4,
        Capability::Conditional => 5,
        Capability::MultiObjective => 6,
        Capability::Concurrent => 7,
    }
}

/// All capabilities in ascending order.
pub open spec fn all_capabilities() -> Seq<Capability> {
    seq![
        Capability::UniformContinuous,
        Capability::UniformDiscrete,
        Capability::LogUniformContinuous,
        Capability::LogUniformDiscrete,
        Capability::Categorical,
        Capability::Conditional,
        Capability::MultiObjective,
        Capability::Concurrent,
    ]
}

/// The elements of `s` in ascending order.
pub open spec fn ascending(s: Set<Capability>) -> Seq<Capability> {
    all_capabilities().filter(|c: Capability| s.contains(c))
}

pub proof fn lemma_rank_index(c: Capability)
    ensures
        0 <= rank(c) < 8,
        all_capabilities()[rank(c)] == c,
        all_capabilities().len() == 8,
{
}

pub proof fn lemma_index_rank(i: int)
    requires
        0 <= i < 8,
    ensures
        rank(all_capabilities()[i]) == i,
{
}

impl Capability {
    /// The position of this capability in ascending order.
    pub fn index(self) -> (res: usize)
        ensures
            res as int == rank(self),
    {
        match self {
            Capability::UniformContinuous => 0,
            Capability::UniformDiscrete => 1,
            Capability::LogUniformContinuous => 2,
            Capability::LogUniformDiscrete => 3,
            Capability::Categorical => 4,
            Capability::Conditional => 5,
            Capability::MultiObjective => 6,
            Capability::Concurrent => 7,
        }
    }

    /// The capability at the given position in ascending order.
    pub fn from_index(i: usize) -> (res: Capability)
        requires
            i < NUM_CAPABILITIES,
        ensures
            res == all_capabilities()[i as int],
            rank(res) == i,
    {
        if i == 0 {
            Capability::UniformContinuous
        } else if i == 1 {
            Capability::UniformDiscrete
        } else if i == 2 {
            Capability::LogUniformContinuous
        } else if i == 3 {
            Capability::LogUniformDiscrete
        } else if i == 4 {
            Capability::Categorical
        } else if i == 5 {
            Capability::Conditional
        } else if i == 6 {
            Capability::MultiObjective
        } else {
            Capability::Concurrent
        }
    }
}

/// Solver capabilities: a set of `Capability`.
#[derive(Debug)]
pub struct Capabilities {
    /// `flags[i]` tells whether the capability of rank `i` is held.
    flags: Vec<bool>,
}

impl View for Capabilities {
    type V = Set<Capability>;

    closed spec fn view(&self) -> Set<Capability> {
        Set::new(|c: Capability| self.flags@.len() == 8 && self.flags@[rank(c)])
    }
}

impl Capabilities {
    #[verifier::type_invariant]
    closed spec fn wf(self) -> bool {
        self.flags@.len() == 8
    }

    proof fn lemma_view(&self, c: Capability)
        requires
            self.flags@.len() == 8,
        ensures
            self@.contains(c) == self.flags@[rank(c)],
    {
    }

    /// Makes a `Capabilities` instance that has exactly the given capabilities.
    pub fn new(capabilities: Vec<Capability>) -> (res: Self)
        ensures
            res@ == capabilities@.to_set(),
    {
        let mut res = Self::empty();
        let mut i: usize = 0;
        while i < capabilities.len()
            invariant
                i <= capabilities.len(),
                res@ == capabilities@.take(i as int).to_set(),
            decreases capabilities.len() - i,
        {
            let c = capabilities[i];
            res.add_capability(c);
            assert(capabilities@.take(i + 1) == capabilities@.take(i as int).push(c));
            proof {
                capabilities@.take(i as int).lemma_push_to_set_commute(c);
            }
            i = i + 1;
        }
        assert(capabilities@.take(capabilities.len() as int) == capabilities@);
        res
    }

    /// Makes a `Capabilities` instance that has all the capabilities.
    pub fn all() -> (res: Self)
        ensures
            res@ == Set::<Capability>::full(),
    {
        let res = Capabilities { flags: vec![true, true, true, true, true, true, true, true] };
        proof {
            assert forall|c: Capability| #[trigger] res@.contains(c) by {
                res.lemma_view(c);
                lemma_rank_index(c);
            }
            assert(res@ =~= Set::<Capability>::full());
        }
        res
    }

    /// Makes a `Capabilities` instance that has no capabilities.
    pub fn empty() -> (res: Self)
        ensures
            res@ == Set::<Capability>::empty(),
    {
        let res = Capabilities {
            flags: vec![false, false, false, false, false, false, false, false],
        };
        proof {
            assert forall|c: Capability| !(#[trigger] res@.contains(c)) by {
                res.lemma_view(c);
                lemma_rank_index(c);
            }
            assert(res@ =~= Set::<Capability>::empty());
        }
        res
    }

    /// Returns `true` if this instance has no capabilities.
    pub fn is_empty(&self) -> (res: bool)
        ensures
            res == (self@ == Set::<Capability>::empty()),
    {
        proof {
            use_type_invariant(self);
        }
        let mut i: usize = 0;
        while i < NUM_CAPABILITIES
            invariant
                i <= 8,
                self.flags@.len() == 8,
                forall|j: int| 0 <= j < i ==> !self.flags@[j],
            decreases 8 - i,
        {
            if self.flags[i] {
                proof {
                    let c = all_capabilities()[i as int];
                    lemma_index_rank(i as int);
                    self.lemma_view(c);
                    assert(self@.contains(c));
                    assert(!Set::<Capability>::empty().contains(c));
                }
                return false;
            }
            i = i + 1;
        }
        proof {
            assert forall|c: Capability| !(#[trigger] self@.contains(c)) by {
                self.lemma_view(c);
                lemma_rank_index(c);
            }
            assert(self@ =~= Set::<Capability>::empty());
        }
        true
    }

    /// Returns `true` if this instance has the given capability.
    pub fn is_capable(&self, c: Capability) -> (res: bool)
        ensures
            res == self@.contains(c),
    {
        proof {
            use_type_invariant(self);
            self.lemma_view(c);
        }
        self.flags[c.index()]
    }

    /// The capabilities required by `required` but not held by this instance, in ascending order.
    pub fn incapables(&self, required: &Self) -> (res: Vec<Capability>)
        ensures
            res@ == ascending(required@.difference(self@)),
    {
        let ghost diff = required@.difference(self@);
        let mut res: Vec<Capability> = Vec::new();
        let mut i: usize = 0;
        while i < NUM_CAPABILITIES
            invariant
                i <= 8,
                diff == required@.difference(self@),
                res@ == all_capabilities().take(i as int).filter(|c: Capability| diff.contains(c)),
            decreases 8 - i,
        {
            let c = Capability::from_index(i);
            let missing = required.is_capable(c) && !self.is_capable(c);
            proof {
                let all = all_capabilities();
                assert(all.take(i + 1).drop_last() == all.take(i as int));
                assert(all.take(i + 1).last() == c);
                all.take(i as int).lemma_filter_push(c, |c: Capability| diff.contains(c));
                assert(all.take(i + 1) == all.take(i as int).push(c));
            }
            if missing {
                res.push(c);
            }
            i = i + 1;
        }
        proof {
            assert(all_capabilities().take(8) == all_capabilities());
        }
        res
    }

    /// All the capabilities that this instance has, in ascending order.
    pub fn iter(&self) -> (res: Vec<Capability>)
        ensures
            res@ == ascending(self@),
    {
        let mut res: Vec<Capability> = Vec::new();
        let mut i: usize = 0;
        while i < NUM_CAPABILITIES
            invariant
                i <= 8,
                res@ == all_capabilities().take(i as int).filter(|c: Capability| self@.contains(c)),
            decreases 8 - i,
        {
            let c = Capability::from_index(i);
            let held = self.is_capable(c);
            proof {
                let all = all_capabilities();
                assert(all.take(i + 1) == all.take(i as int).push(c));
                all.take(i as int).lemma_filter_push(c, |c: Capability| self@.contains(c));
            }
            if held {
                res.push(c);
            }
            i = i + 1;
        }
        proof {
            assert(all_capabilities().take(8) == all_capabilities());
        }
        res
    }

    /// Adds the given capability to this instance.
    pub fn add_capability(&mut self, c: Capability) -> (res: &mut Self)
        ensures
            res@ == old(self)@.insert(c),
            *final(self) == *final(res),
    {
        proof {
            use_type_invariant(&*self);
        }
        let i = c.index();
        let mut flags = self.flags.clone();
        flags.set(i, true);
        *self = Capabilities { flags };
        proof {
            use_type_invariant(&*self);
            assert forall|d: Capability| #[trigger] self@.contains(d) == old(self)@.insert(c).contains(d) by {
                self.lemma_view(d);
                old(self).lemma_view(d);
                lemma_rank_index(d);
                lemma_rank_index(c);
            }
            assert(self@ =~= old(self)@.insert(c));
        }
        self
    }

    /// Removes the given capability from this instance.
    pub fn remove_capability(&mut self, c: Capability) -> (res: &mut Self)
        ensures
            res@ == old(self)@.remove(c),
            *final(self) == *final(res),
    {
        proof {
            use_type_invariant(&*self);
        }
        let i = c.index();
        let mut flags = self.flags.clone();
        flags.set(i, false);
        *self = Capabilities { flags };
        proof {
            use_type_invariant(&*self);
            assert forall|d: Capability| #[trigger] self@.contains(d) == old(self)@.remove(c).contains(d) by {
                self.lemma_view(d);
                old(self).lemma_view(d);
                lemma_rank_index(d);
                lemma_rank_index(c);
            }
            assert(self@ =~= old(self)@.remove(c));
        }
        self
    }
}


proof fn lemma_filter_keeps_order(xs: Seq<Capability>, p: spec_fn(Capability) -> bool)
    requires
        forall|i: int, j: int| 0 <= i < j < xs.len() ==> rank(xs[i]) < rank(xs[j]),
    ensures
        forall|i: int, j: int|
            0 <= i < j < xs.filter(p).len() ==> rank(xs.filter(p)[i]) < rank(xs.filter(p)[j]),
        forall|i: int| 0 <= i < xs.filter(p).len() ==> xs.contains(#[trigger] xs.filter(p)[i]),
    decreases xs.len(),
{
    reveal(Seq::filter);
    if xs.len() > 0 {
        let init = xs.drop_last();
        lemma_filter_keeps_order(init, p);
        let fi = init.filter(p);
        let f = xs.filter(p);
        assert forall|i: int| 0 <= i < fi.len() implies rank(#[trigger] fi[i]) < rank(xs.last()) by {
            assert(init.contains(fi[i]));
            let k = choose|k: int| 0 <= k < init.len() && init[k] == fi[i];
            assert(xs[k] == init[k]);
        }
        assert forall|i: int| 0 <= i < f.len() implies xs.contains(#[trigger] f[i]) by {
            if i < fi.len() {
                assert(f[i] == fi[i]);
                assert(init.contains(fi[i]));
                let k = choose|k: int| 0 <= k < init.len() && init[k] == fi[i];
                assert(xs[k] == init[k]);
            } else {
                assert(f[i] == xs.last());
                assert(xs[xs.len() - 1] == xs.last());
            }
        }
        assert forall|i: int, j: int| 0 <= i < j < f.len() implies rank(f[i]) < rank(f[j]) by {
            if j < fi.len() {
                assert(f[i] == fi[i]);
                assert(f[j] == fi[j]);
            } else {
                assert(f[i] == fi[i]);
                assert(f[j] == xs.last());
            }
        }
    }
}

/// What `iter` and `incapables` list is in strictly ascending order, so no capability is
/// listed twice, and it lists exactly the capabilities of the set it is taken of.
pub proof fn lemma_ascending_lists_set_in_order(s: Set<Capability>)
    ensures
        forall|i: int, j: int|
            0 <= i < j < ascending(s).len() ==> rank(ascending(s)[i]) < rank(ascending(s)[j]),
        forall|c: Capability| #[trigger] ascending(s).contains(c) <==> s.contains(c),
{
    let all = all_capabilities();
    let p = |c: Capability| s.contains(c);
    assert forall|i: int, j: int| 0 <= i < j < all.len() implies rank(all[i]) < rank(all[j]) by {
        lemma_index_rank(i);
        lemma_index_rank(j);
    }
    lemma_filter_keeps_order(all, p);
    broadcast use vstd::seq_lib::group_filter_ensures;
    assert forall|c: Capability| #[trigger] ascending(s).contains(c) <==> s.contains(c) by {
        lemma_rank_index(c);
        if s.contains(c) {
            assert(all[rank(c)] == c);
        }
        if ascending(s).contains(c) {
            let k = choose|k: int| 0 <= k < all.filter(p).len() && all.filter(p)[k] == c;
            assert(p(all.filter(p)[k]));
        }
    }
}

/// A set of capabilities is capable of everything that `required` asks for exactly when
/// `incapables` lists nothing: the listed capabilities are those that are missing.
pub proof fn lemma_no_incapables_iff_capable(have: Set<Capability>, required: Set<Capability>)
    ensures
        ascending(required.difference(have)).len() == 0 <==> required.subset_of(have),
{
    lemma_ascending_lists_set_in_order(required.difference(have));
    if ascending(required.difference(have)).len() == 0 {
        assert forall|c: Capability| required.contains(c) implies have.contains(c) by {
            if !have.contains(c) {
                assert(required.difference(have).contains(c));
                assert(ascending(required.difference(have)).contains(c));
            }
        }
    } else {
        let c = ascending(required.difference(have))[0];
        assert(ascending(required.difference(have)).contains(c));
    }
}

/// Adding a capability makes the set capable of it and removing one makes it incapable of
/// it; neither changes whether the set holds any other capability.
pub proof fn lemma_add_remove_capability(s: Set<Capability>, c: Capability, d: Capability)
    ensures
        s.insert(c).contains(c),
        !s.remove(c).contains(c),
        d != c ==> (s.insert(c).contains(d) <==> s.contains(d)),
        d != c ==> (s.remove(c).contains(d) <==> s.contains(d)),
        !s.contains(c) ==> s.insert(c).remove(c) == s,
        s.contains(c) ==> s.remove(c).insert(c) == s,
{
    if !s.contains(c) {
        assert(s.insert(c).remove(c) =~= s);
    }
    if s.contains(c) {
        assert(s.remove(c).insert(c) =~= s);
    }
}

/// `new` undoes `iter`: the set of the capabilities that `iter` lists is the set it was
/// taken of.
pub proof fn lemma_new_of_iter(s: Set<Capability>)
    ensures
        ascending(s).to_set() == s,
{
    lemma_ascending_lists_set_in_order(s);
    assert forall|c: Capability| #[trigger] ascending(s).to_set().contains(c) <==> s.contains(c) by {
        assert(ascending(s).to_set().contains(c) <==> ascending(s).contains(c));
    }
    assert(ascending(s).to_set() =~= s);
}

impl Clone for Capabilities {
    /// A copy that holds the same capabilities.
    fn clone(&self) -> (res: Self)
        ensures
            res@ == self@,
    {
        proof {
            use_type_invariant(self);
        }
        let mut flags: Vec<bool> = Vec::new();
        let mut i: usize = 0;
        while i < self.flags.len()
            invariant
                i <= self.flags@.len(),
                flags@ == self.flags@.take(i as int),
            decreases self.flags.len() - i,
        {
            flags.push(self.flags[i]);
            assert(self.flags@.take(i + 1) == self.flags@.take(i as int).push(self.flags@[i as int]));
            i = i + 1;
        }
        assert(self.flags@.take(self.flags@.len() as int) == self.flags@);
        let res = Capabilities { flags };
        assert(res@ =~= self@);
        res
    }
}

impl Default for Capabilities {
    /// The capabilities of a solver that is capable of nothing.
    fn default() -> (res: Self)
        ensures
            res@ == Set::<Capability>::empty(),
    {
        Capabilities::empty()
    }
}

} // verus!
