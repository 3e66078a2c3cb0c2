//! Queue and command-buffer capabilities.
//!
//! A capability bounds the set of commands a command buffer may record and
//! the set of queues a finished submission may be handed to.  The four
//! capabilities form a lattice: `Transfer` at the bottom (every queue can
//! copy), `General` at the top, with `Compute` and `Graphics` incomparable
//! in between.

use vstd::prelude::*;

verus! {

/// Capability tag of a command buffer, a submission or a queue.
#[derive(Clone, Copy, Debug, PartialEq, Eq, Structural, Hash)]
pub enum Capability {
    /// Copy-family commands only.
    Transfer,
    /// Dispatch-family and copy-family commands.
    Compute,
    /// Draw-family and copy-family commands.
    Graphics,
    /// Every command.
    General,
}

/// `a` supports `b` when everything legal under capability `b` is also
/// legal under capability `a`.
pub open spec fn spec_supports(a: Capability, b: Capability) -> bool {
    match (a, b) {
        (Capability::General, _) => true,
        (_, Capability::Transfer) => true,
        (Capability::Compute, Capability::Compute) => true,
        (Capability::Graphics, Capability::Graphics) => true,
        _ => false,
    }
}

/// Least upper bound of two capabilities.
pub open spec fn spec_join(a: Capability, b: Capability) -> Capability {
    match (a, b) {
        (Capability::Transfer, _) => b,
        (_, Capability::Transfer) => a,
        (Capability::Compute, Capability::Compute) => Capability::Compute,
        (Capability::Graphics, Capability::Graphics) => Capability::Graphics,
        _ => Capability::General,
    }
}

impl Capability {
    /// Decides the `supports` relation: may a buffer or queue of capability
    /// `self` stand in where capability `needed` is asked for?
    pub fn supports(self, needed: Capability) -> (r: bool)
        ensures
            r == spec_supports(self, needed),
    {
        match (self, needed) {
            (Capability::General, _) => true,
            (_, Capability::Transfer) => true,
            (Capability::Compute, Capability::Compute) => true,
            (Capability::Graphics, Capability::Graphics) => true,
            _ => false,
        }
    }

    /// Least capability that supports both `self` and `other`.
    pub fn join(self, other: Capability) -> (r: Capability)
        ensures
            r == spec_join(self, other),
    {
        match (self, other) {
            (Capability::Transfer, _) => other,
            (_, Capability::Transfer) => self,
            (Capability::Compute, Capability::Compute) => Capability::Compute,
            (Capability::Graphics, Capability::Graphics) => Capability::Graphics,
            _ => Capability::General,
        }
    }
}

/// The `supports` relation is reflexive: every capability supports itself.
pub proof fn lemma_supports_reflexive(a: Capability)
    ensures
        spec_supports(a, a),
{
}

/// The `supports` relation is transitive.
pub proof fn lemma_supports_transitive(a: Capability, b: Capability, c: Capability)
    requires
        spec_supports(a, b),
        spec_supports(b, c),
    ensures
        spec_supports(a, c),
{
}

/// The `supports` relation is antisymmetric, so it is a partial order.
pub proof fn lemma_supports_antisymmetric(a: Capability, b: Capability)
    requires
        spec_supports(a, b),
        spec_supports(b, a),
    ensures
        a == b,
{
}

/// The join of two capabilities supports both of them.
pub proof fn lemma_join_upper_bound(a: Capability, b: Capability)
    ensures
        spec_supports(spec_join(a, b), a),
        spec_supports(spec_join(a, b), b),
{
}

/// The join is the least capability that supports both arguments: any
/// other upper bound supports the join.
pub proof fn lemma_join_least_upper_bound(a: Capability, b: Capability, c: Capability)
    requires
        spec_supports(c, a),
        spec_supports(c, b),
    ensures
        spec_supports(c, spec_join(a, b)),
{
}

} // verus!
