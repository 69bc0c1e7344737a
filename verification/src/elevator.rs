use vstd::prelude::*;

use crate::entity::Entity;
use crate::entity::EntityType;

verus! {

/// Door animation phase; exactly one full-phase transition occurs per step
/// while motion is blocked.
#[derive(Clone, Copy, Debug, PartialEq, Eq, Structural)]
pub enum DoorState {
    Closed,
    Closing,
    Open,
    Opening,
}

/// A single elevator car, advanced by a discrete-time simulation.
///
/// All physical quantities are fixed-point integers so that every step is
/// exact and reproducible: altitudes in micrometers, velocities in
/// micrometers per second, accelerations in micrometers per second squared,
/// weights in grams, durations in milliseconds.
pub struct Elevator {
    /// maximum load in g (immutable configuration)
    pub max_weight: i64,
    /// maximum capacity in persons (immutable configuration)
    pub max_people: i8,
    /// maximum velocity in um/s (immutable configuration)
    pub max_velocity: i64,
    /// acceleration in um/s^2 (immutable configuration)
    pub acceleration: i64,
    /// time one door open/close phase takes, in ms (immutable configuration)
    pub door_close_duration_ms: u64,

    /// current load in g
    pub weight: i64,
    /// current velocity in um/s
    pub velocity: i64,
    /// current altitude in um
    pub altitude: i64,
    /// destination altitude in um; set externally, never by the step itself
    pub target_altitude: i64,
    /// 1 for up, -1 for down; sign applied to the velocity term
    pub direction: i64,
    /// state of the doors
    pub door_state: DoorState,
}

impl Elevator {
    /// Well-formedness: positive configuration, a load that is not negative,
    /// a velocity between zero and the maximum, and a direction of exactly
    /// one or minus one.
    pub open spec fn wf(self) -> bool {
        &&& self.max_weight > 0
        &&& self.max_people > 0
        &&& self.max_velocity > 0
        &&& self.acceleration > 0
        &&& self.weight >= 0
        &&& 0 <= self.velocity <= self.max_velocity
        &&& (self.direction == 1 || self.direction == -1)
    }

    /// One door transition of the closing sequence: Open -> Closing ->
    /// Closed, and Opening -> Open; Closed stays as it is.
    pub open spec fn door_after(d: DoorState) -> DoorState {
        match d {
            DoorState::Open => DoorState::Closing,
            DoorState::Closing => DoorState::Closed,
            DoorState::Opening => DoorState::Open,
            DoorState::Closed => DoorState::Closed,
        }
    }

    /// Velocity after one motion-integration step over `dt` milliseconds:
    /// it ramps by `acceleration * dt`, clamped at `max_velocity`, and never
    /// decreases.
    pub open spec fn vel_after(self, dt: int) -> int {
        if self.velocity < self.max_velocity {
            let ramped = self.velocity + self.acceleration * dt / 1000;
            if ramped > self.max_velocity {
                self.max_velocity as int
            } else {
                ramped
            }
        } else {
            self.velocity as int
        }
    }

    /// Altitude after one motion-integration step over `dt` milliseconds:
    /// the signed distance covered at the velocity the step started with,
    /// plus the uniform-acceleration correction term `acceleration * dt^2 / 2`
    /// (which carries no direction sign). Divisions are by the unit scale
    /// factors: velocity (um/s) times dt (ms) over 1000 gives um, and
    /// acceleration (um/s^2) times dt^2 (ms^2) over 2_000_000 gives um.
    pub open spec fn alt_after(self, dt: int) -> int {
        self.altitude + self.direction * (self.velocity * dt / 1000)
            + self.acceleration * dt * dt / 2000000
    }

    /// The machine limits a step must respect so that every intermediate
    /// product and sum fits the integer types; a pure size condition, not a
    /// behavioral one.
    pub open spec fn step_fits(self, dt: int) -> bool {
        &&& self.acceleration * dt <= u64::MAX as int
        &&& self.velocity + self.acceleration * dt / 1000 <= i64::MAX as int
        &&& self.velocity * dt <= u64::MAX as int
        &&& self.velocity * dt / 1000 <= i64::MAX as int
        &&& self.acceleration * dt * dt <= u64::MAX as int
        &&& self.acceleration * dt * dt / 2000000 <= i64::MAX as int
        &&& i64::MIN as int <= self.altitude + self.direction * (self.velocity * dt / 1000)
        &&& self.alt_after(dt) <= i64::MAX as int
    }

    /// The complete step relation of the state machine, as a function of the
    /// pre-state and the time delta alone:
    /// - at the target altitude (exact equality) the step is a no-op;
    /// - away from the target with doors not yet Closed, exactly one door
    ///   transition happens and motion is not advanced;
    /// - away from the target with doors Closed, one motion-integration step
    ///   happens and the doors stay Closed.
    pub open spec fn step_spec(self, dt: int) -> Elevator {
        if self.altitude == self.target_altitude {
            self
        } else if self.door_state != DoorState::Closed {
            Elevator { door_state: Self::door_after(self.door_state), ..self }
        } else {
            Elevator {
                velocity: self.vel_after(dt) as i64,
                altitude: self.alt_after(dt) as i64,
                ..self
            }
        }
    }

    /// Constructs the canonical default car: doors Open at altitude 0 with a
    /// target of 6 m (6_000_000 um), direction up, at rest and unloaded;
    /// 250 kg / 4 persons capacity, 1.6 m/s maximum velocity, 0.6 m/s^2
    /// acceleration, 2.5 s door phases.
    pub fn new() -> (e: Elevator)
        ensures
            e.max_weight == 250000,
            e.max_people == 4,
            e.max_velocity == 1600000,
            e.acceleration == 600000,
            e.door_close_duration_ms == 2500,
            e.weight == 0,
            e.velocity == 0,
            e.altitude == 0,
            e.target_altitude == 6000000,
            e.direction == 1,
            e.door_state == DoorState::Open,
            e.wf(),
    {
        Elevator {
            max_weight: 250000,
            max_people: 4,
            max_velocity: 1600000,
            acceleration: 600000,
            door_close_duration_ms: 2500,

            weight: 0,
            velocity: 0,
            altitude: 0,
            target_altitude: 6000000,
            direction: 1,
            door_state: DoorState::Open,
        }
    }
}

impl Elevator {
    /// A whole run: the state after stepping through a sequence of time
    /// deltas, first delta first.
    pub open spec fn run_spec(self, deltas: Seq<int>) -> Elevator
        decreases deltas.len(),
    {
        if deltas.len() == 0 {
            self
        } else {
            self.step_spec(deltas[0]).run_spec(deltas.drop_first())
        }
    }

    /// Every step of a run respects the machine limits and uses a
    /// non-negative delta.
    pub open spec fn run_fits(self, deltas: Seq<int>) -> bool
        decreases deltas.len(),
    {
        deltas.len() == 0 || {
            &&& 0 <= deltas[0]
            &&& self.step_fits(deltas[0])
            &&& self.step_spec(deltas[0]).run_fits(deltas.drop_first())
        }
    }
}

/// Idle invariance: for an elevator exactly at its target altitude, a step
/// with any time delta leaves the whole state unchanged — no motion and no
/// door transition.
pub proof fn lemma_idle_invariant(e: Elevator, dt: int)
    requires
        e.altitude == e.target_altitude,
    ensures
        e.step_spec(dt) == e,
{
}

/// A step never lowers the velocity, never raises it past `max_velocity`,
/// and preserves well-formedness — whichever branch of the state machine it
/// takes.
pub proof fn lemma_step_velocity_monotonic_clamp(e: Elevator, dt: int)
    requires
        e.wf(),
        0 <= dt,
        e.step_fits(dt),
    ensures
        e.step_spec(dt).velocity >= e.velocity,
        e.step_spec(dt).velocity <= e.max_velocity,
        e.step_spec(dt).wf(),
{
    assert(e.acceleration * dt / 1000 >= 0) by {
        assert(e.acceleration * dt >= 0) by (nonlinear_arith)
            requires
                e.acceleration > 0,
                dt >= 0,
        ;
    };
}

/// Velocity monotonic clamp over a whole run: repeated steps from a
/// well-formed state never decrease the velocity and never exceed
/// `max_velocity`, and well-formedness is preserved throughout.
pub proof fn lemma_run_velocity_monotonic_clamp(e: Elevator, deltas: Seq<int>)
    requires
        e.wf(),
        e.run_fits(deltas),
    ensures
        e.run_spec(deltas).velocity >= e.velocity,
        e.run_spec(deltas).velocity <= e.max_velocity,
        e.run_spec(deltas).wf(),
    decreases deltas.len(),
{
    if deltas.len() > 0 {
        lemma_step_velocity_monotonic_clamp(e, deltas[0]);
        let stepped = e.step_spec(deltas[0]);
        lemma_run_velocity_monotonic_clamp(stepped, deltas.drop_first());
    }
}

/// Door cycle ordering: away from the target with doors Open, the first two
/// steps perform exactly the door transitions Open -> Closing -> Closed
/// without touching motion state, and the third and fourth steps — the doors
/// now Closed — integrate motion instead of transitioning further.
pub proof fn lemma_door_cycle(e: Elevator, d1: int, d2: int, d3: int, d4: int)
    requires
        e.wf(),
        e.door_state == DoorState::Open,
        e.altitude != e.target_altitude,
        d1 > 0,
        d2 > 0,
        d3 > 0,
        d4 > 0,
        e.step_spec(d1).step_spec(d2).step_fits(d3),
        e.step_spec(d1).step_spec(d2).step_spec(d3).step_fits(d4),
        e.step_spec(d1).step_spec(d2).step_spec(d3).altitude != e.target_altitude,
    ensures
        e.step_spec(d1).door_state == DoorState::Closing,
        e.step_spec(d1).altitude == e.altitude,
        e.step_spec(d1).velocity == e.velocity,
        e.step_spec(d1).step_spec(d2).door_state == DoorState::Closed,
        e.step_spec(d1).step_spec(d2).altitude == e.altitude,
        e.step_spec(d1).step_spec(d2).velocity == e.velocity,
        e.step_spec(d1).step_spec(d2).step_spec(d3).door_state == DoorState::Closed,
        e.step_spec(d1).step_spec(d2).step_spec(d3).altitude as int
            == e.step_spec(d1).step_spec(d2).alt_after(d3),
        e.step_spec(d1).step_spec(d2).step_spec(d3).velocity as int
            == e.step_spec(d1).step_spec(d2).vel_after(d3),
        e.step_spec(d1).step_spec(d2).step_spec(d3).step_spec(d4).door_state
            == DoorState::Closed,
        e.step_spec(d1).step_spec(d2).step_spec(d3).step_spec(d4).altitude as int
            == e.step_spec(d1).step_spec(d2).step_spec(d3).alt_after(d4),
        e.step_spec(d1).step_spec(d2).step_spec(d3).step_spec(d4).velocity as int
            == e.step_spec(d1).step_spec(d2).step_spec(d3).vel_after(d4),
{
}

/// Reproducibility: a step is a pure function of the pre-state and the time
/// delta alone, so two elevators with identical state fed identical delta
/// sequences pass through identical states at every point of the run.
pub proof fn lemma_reproducible(e1: Elevator, e2: Elevator, deltas: Seq<int>)
    requires
        e1 == e2,
    ensures
        e1.run_spec(deltas) == e2.run_spec(deltas),
        forall|i: int|
            0 <= i <= deltas.len() ==> e1.run_spec(#[trigger] deltas.take(i))
                == e2.run_spec(deltas.take(i)),
{
}

/// Overshoot is not corrected: a motion-integration step whose kinematic
/// result lies past the target altitude keeps that result as it is — no
/// clamping or snapping to the target, and the doors stay Closed.
pub proof fn lemma_overshoot_uncorrected(e: Elevator, dt: int)
    requires
        e.wf(),
        e.door_state == DoorState::Closed,
        e.altitude != e.target_altitude,
        e.step_fits(dt),
        0 <= dt,
        e.alt_after(dt) > e.target_altitude,
    ensures
        e.step_spec(dt).altitude as int == e.alt_after(dt),
        e.step_spec(dt).altitude > e.target_altitude,
        e.step_spec(dt).door_state == DoorState::Closed,
{
}

impl Entity for Elevator {
    open spec fn inv(&self) -> bool {
        self.wf()
    }

    open spec fn sim_pre(&self, time_delta_ms: u64) -> bool {
        self.step_fits(time_delta_ms as int)
    }

    open spec fn sim_post(&self, post: Self, time_delta_ms: u64) -> bool {
        post == self.step_spec(time_delta_ms as int)
    }

    open spec fn spec_entity_type() -> EntityType {
        EntityType::Elevator
    }

    fn entity_type() -> (t: EntityType) {
        EntityType::Elevator
    }

    /// One tick of the state machine: either advance the door cycle or
    /// integrate motion for `time_delta_ms`, never both in the same call.
    fn simulate(&mut self, time_delta_ms: u64) {
        if self.altitude != self.target_altitude {
            if self.door_state != DoorState::Closed {
                self.door_state = match self.door_state {
                    DoorState::Open => DoorState::Closing,
                    DoorState::Closing => DoorState::Closed,
                    DoorState::Opening => DoorState::Open,
                    DoorState::Closed => DoorState::Closed,
                };
                return;
            }

            // the state-machine contract: motion is integrated only with the
            // doors Closed — here proved rather than checked at run time
            assert(self.door_state == DoorState::Closed);

            let dt = time_delta_ms;
            let old_velocity = self.velocity;

            if self.velocity < self.max_velocity {
                let gain = ((self.acceleration as u64) * dt / 1000) as i64;
                let ramped = self.velocity + gain;
                self.velocity = if ramped > self.max_velocity {
                    self.max_velocity
                } else {
                    ramped
                };
            }

            let vel_term = ((old_velocity as u64) * dt / 1000) as i64;
            let acc_term = ((self.acceleration as u64) * dt * dt / 2000000) as i64;
            self.altitude = self.altitude + self.direction * vel_term + acc_term;
        }
    }
}

} // verus!
