use vstd::prelude::*;

verus! {

/// Classification tag for a simulated object.
#[derive(Clone, Copy, Debug, PartialEq, Eq, Structural)]
pub enum EntityType {
    Elevator,
    Person,
}

/// Capability contract for any simulated object: a classification tag and a
/// single time-advancing operation, so a driver loop can advance a
/// heterogeneous collection of entities without knowing their concrete types.
///
/// The spec hooks let each implementor publish its own invariant, the inputs
/// its step accepts, and the exact relation between the state before and
/// after one step.
pub trait Entity: Sized {
    /// The implementor's internal well-formedness condition, preserved by
    /// every step.
    spec fn inv(&self) -> bool;

    /// Which time deltas a step accepts from a given state (for instance,
    /// bounds that keep the arithmetic within machine integers).
    spec fn sim_pre(&self, time_delta_ms: u64) -> bool;

    /// The step relation: how the state after one step relates to the state
    /// before it.
    spec fn sim_post(&self, post: Self, time_delta_ms: u64) -> bool;

    /// The tag this implementor answers with.
    spec fn spec_entity_type() -> EntityType;

    /// Returns the implementor's static classification tag; pure.
    fn entity_type() -> (t: EntityType)
        ensures
            t == Self::spec_entity_type(),
    ;

    /// Advances the entity's internal state by exactly `time_delta_ms`
    /// milliseconds of simulated time.
    fn simulate(&mut self, time_delta_ms: u64)
        requires
            old(self).inv(),
            old(self).sim_pre(time_delta_ms),
        ensures
            final(self).inv(),
            old(self).sim_post(*final(self), time_delta_ms),
    ;
}

} // verus!
