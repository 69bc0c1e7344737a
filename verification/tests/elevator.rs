use elevsim::elevator::DoorState;
use elevsim::elevator::Elevator;
use elevsim::entity::Entity;
use elevsim::entity::EntityType;

#[test]
fn default_configuration() {
    let e = Elevator::new();
    assert_eq!(e.max_weight, 250_000);
    assert_eq!(e.max_people, 4);
    assert_eq!(e.max_velocity, 1_600_000);
    assert_eq!(e.acceleration, 600_000);
    assert_eq!(e.door_close_duration_ms, 2_500);
    assert_eq!(e.weight, 0);
    assert_eq!(e.velocity, 0);
    assert_eq!(e.altitude, 0);
    assert_eq!(e.target_altitude, 6_000_000);
    assert_eq!(e.direction, 1);
    assert_eq!(e.door_state, DoorState::Open);
}

#[test]
fn elevator_entity_type() {
    assert_eq!(Elevator::entity_type(), EntityType::Elevator);
}

#[test]
fn idle_step_is_noop() {
    // Idle invariance: at the target altitude nothing changes, whatever the
    // delta and whatever the door phase.
    for &phase in &[
        DoorState::Open,
        DoorState::Opening,
        DoorState::Closing,
        DoorState::Closed,
    ] {
        let mut e = Elevator::new();
        e.target_altitude = e.altitude;
        e.door_state = phase;
        e.velocity = 700_000;
        for &dt in &[0u64, 1, 1000, 3_600_000] {
            e.simulate(dt);
            assert_eq!(e.altitude, 0);
            assert_eq!(e.velocity, 700_000);
            assert_eq!(e.door_state, phase);
        }
    }
}

#[test]
fn door_cycle_then_motion() {
    // Door cycle ordering: from Open, the first steps transition
    // Open -> Closing -> Closed without motion; once Closed, steps integrate
    // motion instead of transitioning further.
    let mut e = Elevator::new();
    assert_eq!(e.door_state, DoorState::Open);

    e.simulate(700);
    assert_eq!(e.door_state, DoorState::Closing);
    assert_eq!(e.altitude, 0);
    assert_eq!(e.velocity, 0);

    e.simulate(50);
    assert_eq!(e.door_state, DoorState::Closed);
    assert_eq!(e.altitude, 0);
    assert_eq!(e.velocity, 0);

    e.simulate(1000);
    assert_eq!(e.door_state, DoorState::Closed);
    assert_eq!(e.velocity, 600_000);
    assert_eq!(e.altitude, 300_000);

    e.simulate(500);
    assert_eq!(e.door_state, DoorState::Closed);
    assert_eq!(e.velocity, 900_000);
    // 300_000 from before, 600_000 um/s for 0.5 s, plus 600_000 * 0.5^2 / 2
    assert_eq!(e.altitude, 300_000 + 300_000 + 75_000);
}

#[test]
fn door_cycle_from_opening() {
    let mut e = Elevator::new();
    e.door_state = DoorState::Opening;
    e.simulate(10);
    assert_eq!(e.door_state, DoorState::Open);
    e.simulate(10);
    assert_eq!(e.door_state, DoorState::Closing);
    e.simulate(10);
    assert_eq!(e.door_state, DoorState::Closed);
}

#[test]
fn kinematic_first_closed_step() {
    // Kinematic step determinism: velocity 0, altitude 0, direction up,
    // acceleration 0.6 m/s^2, one 1.0 s step from Closed gives velocity
    // 0.6 m/s and altitude 0.3 m (0*1 + 0.5*0.6*1^2), here in um.
    let mut e = Elevator::new();
    e.door_state = DoorState::Closed;
    e.simulate(1000);
    assert_eq!(e.velocity, 600_000);
    assert_eq!(e.altitude, 300_000);
}

#[test]
fn velocity_never_decreases_and_clamps() {
    // Velocity monotonic clamp: repeated steps of a Closed-door elevator
    // never decrease velocity and never exceed max_velocity.
    let mut e = Elevator::new();
    e.door_state = DoorState::Closed;
    let mut last = e.velocity;
    for _ in 0..10 {
        e.simulate(1000);
        assert!(e.velocity >= last);
        assert!(e.velocity <= e.max_velocity);
        last = e.velocity;
    }
    // 0.6, 1.2, then 1.8 clamped at 1.6 m/s from the third step onward
    assert_eq!(e.velocity, 1_600_000);
}

#[test]
fn reproducible_runs() {
    // Reproducibility: identical initial state and identical delta sequences
    // give identical state sequences, bit for bit.
    let deltas: [u64; 7] = [700, 50, 1000, 1, 333, 2000, 125];
    let mut a = Elevator::new();
    let mut b = Elevator::new();
    for &dt in &deltas {
        a.simulate(dt);
        b.simulate(dt);
        assert_eq!(a.altitude, b.altitude);
        assert_eq!(a.velocity, b.velocity);
        assert_eq!(a.door_state, b.door_state);
        assert_eq!(a.weight, b.weight);
        assert_eq!(a.target_altitude, b.target_altitude);
        assert_eq!(a.direction, b.direction);
    }
}

#[test]
fn overshoot_is_kept() {
    // Overshoot is not corrected: a motion step past the target keeps its
    // kinematic result; nothing snaps back to target_altitude.
    let mut e = Elevator::new();
    e.door_state = DoorState::Closed;
    e.target_altitude = 100_000;
    e.velocity = 1_600_000;
    e.simulate(1000);
    // at max velocity already: 1.6 m covered plus the 0.3 m correction term
    assert_eq!(e.altitude, 1_600_000 + 300_000);
    assert!(e.altitude > e.target_altitude);
    assert_eq!(e.door_state, DoorState::Closed);
}

#[test]
fn downward_motion_subtracts_velocity_term() {
    let mut e = Elevator::new();
    e.door_state = DoorState::Closed;
    e.direction = -1;
    e.target_altitude = -6_000_000;
    e.simulate(1000);
    assert_eq!(e.velocity, 600_000);
    // the velocity term is signed, the acceleration correction is not
    assert_eq!(e.altitude, 300_000);
    e.simulate(1000);
    assert_eq!(e.velocity, 1_200_000);
    assert_eq!(e.altitude, 300_000 - 600_000 + 300_000);
}
