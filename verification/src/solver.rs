//! Solver specifications.
use vstd::prelude::*;
use crate::attributes::Attributes;
use crate::capability::{Capabilities, Capability};

verus! {

/// Solver specification.
#[derive(Debug)]
pub struct SolverSpec {
    /// The name of this solver.
    pub name: String,
    /// The attributes of this solver.
    pub attrs: Attributes,
    /// The capabilities of this solver.
    pub capabilities: Capabilities,
}

/// Builder of `SolverSpec`.
#[derive(Debug)]
pub struct SolverSpecBuilder {
    name: String,
    attrs: Attributes,
    capabilities: Capabilities,
}

impl SolverSpecBuilder {
    /// The name given to the builder.
    pub closed spec fn spec_name(&self) -> Seq<char> {
        self.name@
    }

    /// The attributes given so far.
    pub closed spec fn spec_attrs(&self) -> Map<Seq<char>, Seq<char>> {
        self.attrs@
    }

    /// The capabilities given so far.
    pub closed spec fn spec_capabilities(&self) -> Set<Capability> {
        self.capabilities@
    }

    /// Makes a new `SolverSpecBuilder` instance with no attributes and no capabilities.
    pub fn new(solver_name: &str) -> (res: Self)
        ensures
            res.spec_name() == solver_name@,
            res.spec_attrs() == Map::<Seq<char>, Seq<char>>::empty(),
            res.spec_capabilities() == Set::<Capability>::empty(),
    {
        SolverSpecBuilder {
            name: solver_name.to_owned(),
            attrs: Attributes::new(),
            capabilities: Capabilities::empty(),
        }
    }

    /// Adds an attribute to this solver, replacing any earlier value under the same key.
    pub fn attr(self, key: &str, value: &str) -> (res: Self)
        ensures
            res.spec_name() == self.spec_name(),
            res.spec_attrs() == self.spec_attrs().insert(key@, value@),
            res.spec_capabilities() == self.spec_capabilities(),
    {
        let SolverSpecBuilder { name, attrs, capabilities } = self;
        SolverSpecBuilder { name, attrs: attrs.insert(key, value), capabilities }
    }

    /// Adds a capability to this solver.
    pub fn capable(self, capability: Capability) -> (res: Self)
        ensures
            res.spec_name() == self.spec_name(),
            res.spec_attrs() == self.spec_attrs(),
            res.spec_capabilities() == self.spec_capabilities().insert(capability),
    {
        let SolverSpecBuilder { name, attrs, mut capabilities } = self;
        capabilities.add_capability(capability);
        SolverSpecBuilder { name, attrs, capabilities }
    }

    /// Replaces the capabilities of this solver with the given ones.
    pub fn capabilities(self, capabilities: Capabilities) -> (res: Self)
        ensures
            res.spec_name() == self.spec_name(),
            res.spec_attrs() == self.spec_attrs(),
            res.spec_capabilities() == capabilities@,
    {
        let SolverSpecBuilder { name, attrs, capabilities: _ } = self;
        SolverSpecBuilder { name, attrs, capabilities }
    }

    /// Builds a `SolverSpec` instance with the given settings.
    pub fn finish(self) -> (res: SolverSpec)
        ensures
            res.name@ == self.spec_name(),
            res.attrs@ == self.spec_attrs(),
            res.capabilities@ == self.spec_capabilities(),
    {
        SolverSpec { name: self.name, attrs: self.attrs, capabilities: self.capabilities }
    }
}

} // verus!
