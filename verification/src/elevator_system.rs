//! The dispatcher: a bank of cars over one list of floors. A call goes to
//! the nearest idle car, and every tick advances every car.
use vstd::prelude::*;
use crate::elevator::Elevator;
use crate::error::{ConfigError, CurrentLimitExceeded};
use crate::fixed::{difference, minus, plus, product, sum};
use crate::motor::{motor_fault, wired_controller, ElevatorMotor};
use crate::motor_parameters::MotorParameters;
use crate::motor_samples::{greatest, operating_point, tnm_column, MotorSamples};
use crate::pid_controller::{PIDController, PIDParameters};

verus! {

/// Mass of an empty car.
pub const ELEVATOR_MASS: i64 = 500_000_000;

/// Mass of a car's counterweight.
pub const COUNTER_MASS: i64 = 300_000_000;

/// Greatest speed of a car.
pub const MAX_SPEED: i64 = 10_000_000;

/// Greatest acceleration of a car.
pub const MAX_ACCEL: i64 = 5_000_000;

/// Greatest load of a car.
pub const MAX_LOAD: i64 = 1_000_000_000;

/// Simulated seconds per second of the caller's clock.
pub const TIME_MULTIPLIER: i64 = 1_000_000;

/// The weight that a call puts into the car that takes it.
pub const PASSENGER_WEIGHT: i64 = 70_000_000;

/// A bank of cars, the floors they serve and the energy they have used.
#[derive(Debug)]
pub struct ElevatorSystem {
    pub floors: Vec<i64>,
    pub elevators: Vec<Elevator>,
    pub total_energy_consumed: i64,
}

/// Why no system can be built from these settings, if so: the height
/// controller's settings are looked at first, then the motor's.
pub open spec fn system_fault(
    height_pid: PIDParameters,
    motor_parameters: MotorParameters,
    s: Seq<MotorSamples>,
) -> Option<ConfigError> {
    if height_pid.update_freq == 0 {
        Some(ConfigError::ZeroUpdateFrequency)
    } else {
        motor_fault(motor_parameters, s)
    }
}

/// A car as a new system holds it: idle and empty at height zero, over the
/// system's floors, with a height controller and a motor at rest.
pub open spec fn fresh_car(
    car: Elevator,
    floors: Seq<i64>,
    height_pid: PIDParameters,
    motor_parameters: MotorParameters,
    s: Seq<MotorSamples>,
) -> bool {
    &&& car.floors@ == floors
    &&& car.is_idle
    &&& car.current_height == 0
    &&& car.current_accel == 0
    &&& car.height_pid == PIDController::fresh(height_pid)
    &&& car.max_speed == MAX_SPEED
    &&& car.max_accel == MAX_ACCEL
    &&& car.elevator_mass == ELEVATOR_MASS
    &&& car.elevator_counter_mass == COUNTER_MASS
    &&& car.max_load == MAX_LOAD
    &&& car.current_load == 0
    &&& car.gravity == crate::elevator::GRAVITY
    &&& car.time_multiplier == TIME_MULTIPLIER
    &&& car.motor.motor_samples@ == s
    &&& car.motor.gearbox_ratio == motor_parameters.gearbox_ratio
    &&& car.motor.current_properties == operating_point(s, 0)
    &&& car.motor.current_speed == 0
    &&& car.motor.total_energy_used == 0
    &&& car.motor.max_force == product(
        product(greatest(tnm_column(s)), motor_parameters.gearbox_ratio as int),
        motor_parameters.output_shaft_radius as int,
    )
    &&& car.motor.speed_pid == wired_controller(
        motor_parameters.pid_parameters,
        motor_parameters.soft_rpm_limit,
        motor_parameters.soft_current_limit,
        s,
    )
    &&& car.wf()
}

/// Car `best` is the one that a call from floor `origin` goes to: it is
/// idle, no idle car stands lower relative to the floor, and every idle car
/// before it stands higher. Heights are compared with their sign, so a car
/// below the floor goes before one that is as far above it.
pub open spec fn preferred(cars: Seq<Elevator>, origin: int, best: int) -> bool {
    &&& 0 <= best < cars.len()
    &&& cars[best].is_idle
    &&& forall|j: int|
        0 <= j < cars.len() && (#[trigger] cars[j]).is_idle ==> cars[best].height_above(origin)
            <= cars[j].height_above(origin)
    &&& forall|j: int|
        0 <= j < best && (#[trigger] cars[j]).is_idle ==> cars[best].height_above(origin)
            < cars[j].height_above(origin)
}

/// No car is idle.
pub open spec fn all_busy(cars: Seq<Elevator>) -> bool {
    forall|j: int| 0 <= j < cars.len() ==> !(#[trigger] cars[j]).is_idle
}

/// The cars after the first `n` of them have made a tick.
pub open spec fn ticked(cars: Seq<Elevator>, elapsed: i64, n: int) -> Seq<Elevator> {
    Seq::new(
        cars.len(),
        |i: int|
            if i < n {
                cars[i].after_update(elapsed)
            } else {
                cars[i]
            },
    )
}

/// The energy that a car draws in its next tick.
pub open spec fn drawn(car: Elevator, elapsed: i64) -> int {
    difference(
        car.after_update(elapsed).motor.total_energy_used as int,
        car.motor.total_energy_used as int,
    )
}

/// The running total after the first `n` cars have made a tick.
pub open spec fn energy_after(cars: Seq<Elevator>, elapsed: i64, total: int, n: int) -> int
    decreases n,
{
    if n <= 0 {
        total
    } else {
        sum(energy_after(cars, elapsed, total, n - 1), drawn(cars[n - 1], elapsed))
    }
}

/// Car `k` is the first whose motor cannot follow its controller through
/// the next tick.
pub open spec fn first_failure(cars: Seq<Elevator>, elapsed: i64, k: int) -> bool {
    &&& 0 <= k < cars.len()
    &&& !cars[k].sustains(elapsed)
    &&& forall|j: int| 0 <= j < k ==> (#[trigger] cars[j]).sustains(elapsed)
}

/// What a call from floor `origin` to floor `destination` does to a system.
/// With no idle car nothing changes and nothing is assigned. Otherwise the
/// preferred car, and no other, is sent to `destination` with a passenger's
/// weight more on board, and its index is the answer.
pub open spec fn dispatched(
    before: ElevatorSystem,
    origin: int,
    destination: int,
    after: ElevatorSystem,
    assigned: Option<usize>,
) -> bool {
    match assigned {
        None => all_busy(before.elevators@) && after == before,
        Some(best) => {
            &&& preferred(before.elevators@, origin, best as int)
            &&& after.elevators@ == before.elevators@.update(
                best as int,
                before.elevators@[best as int].sent(destination).laden(PASSENGER_WEIGHT),
            )
            &&& after.floors == before.floors
            &&& after.total_energy_consumed == before.total_energy_consumed
        },
    }
}

/// The floor that a draw stands for among `count` floors.
pub open spec fn floor_of_draw(draw: i32, count: int) -> int
    recommends
        count > 0,
{
    (draw + 0x8000_0000) % count
}

/// What a visitor does to a system whose two floors were drawn as
/// `from_draw` and `to_draw`: a call between the two floors that the draws
/// stand for, where they differ; nothing, where they are the same floor or
/// the system has no floor.
pub open spec fn visited(
    before: ElevatorSystem,
    from_draw: i32,
    to_draw: i32,
    after: ElevatorSystem,
    assigned: Option<usize>,
) -> bool {
    let count = before.floors@.len() as int;
    if count == 0 || floor_of_draw(from_draw, count) == floor_of_draw(to_draw, count) {
        assigned is None && after == before
    } else {
        dispatched(
            before,
            floor_of_draw(from_draw, count),
            floor_of_draw(to_draw, count),
            after,
            assigned,
        )
    }
}

/// What a tick after `elapsed` seconds does to a system. Where every car's
/// motor can follow its controller, every car has made its tick and the
/// energy that each drew has been added to the total, in order. Otherwise
/// the first car that cannot is reported; the cars up to and including it
/// have made their tick and their energy is counted, the others are as
/// before.
pub open spec fn advanced(
    before: ElevatorSystem,
    elapsed: i64,
    after: ElevatorSystem,
    outcome: Result<(), CurrentLimitExceeded>,
) -> bool {
    let cars = before.elevators@;
    &&& after.floors == before.floors
    &&& outcome is Ok <==> forall|j: int|
        0 <= j < cars.len() ==> (#[trigger] cars[j]).sustains(elapsed)
    &&& outcome is Ok ==> after.elevators@ == ticked(cars, elapsed, cars.len() as int)
        && after.total_energy_consumed == energy_after(
        cars,
        elapsed,
        before.total_energy_consumed as int,
        cars.len() as int,
    )
    &&& outcome is Err ==> exists|k: int|
        {
            &&& first_failure(cars, elapsed, k)
            &&& after.elevators@ == ticked(cars, elapsed, k + 1)
            &&& after.total_energy_consumed == energy_after(
                cars,
                elapsed,
                before.total_energy_consumed as int,
                k + 1,
            )
            &&& outcome == Err::<(), CurrentLimitExceeded>(
                CurrentLimitExceeded {
                    current: cars[k].motor.commanded(cars[k].delta_time(elapsed)),
                },
            )
        }
}

/// Every car's motor is guarded.
pub open spec fn all_guarded(cars: Seq<Elevator>) -> bool {
    forall|j: int| 0 <= j < cars.len() ==> (#[trigger] cars[j]).motor.guarded()
}

/// A draw from the generator of the calling thread: `rand::random` at
/// `i32`. Nothing is claimed of the number that comes back.
#[verifier::external_body]
fn draw() -> (r: i32) {
    rand::random::<i32>()
}

fn floor_for(draw: i32, count: usize) -> (floor: usize)
    requires
        count > 0,
    ensures
        floor == floor_of_draw(draw, count as int),
        floor < count,
{
    let lifted: u64 = (draw as i64 + 0x8000_0000i64) as u64;
    (lifted % (count as u64)) as usize
}

fn duplicate<T: Copy>(items: &Vec<T>) -> (copy: Vec<T>)
    ensures
        copy@ == items@,
{
    let mut copy: Vec<T> = Vec::new();
    let mut i: usize = 0;
    while i < items.len()
        invariant
            0 <= i <= items.len(),
            copy@ == items@.take(i as int),
        decreases items.len() - i,
    {
        copy.push(items[i]);
        assert(items@.take(i + 1) =~= items@.take(i as int).push(items@[i as int]));
        i += 1;
    }
    assert(items@.take(items.len() as int) =~= items@);
    copy
}

impl ElevatorSystem {
    /// Every car is well formed and runs over the system's floors.
    pub open spec fn wf(self) -> bool {
        forall|i: int|
            0 <= i < self.elevators@.len() ==> (#[trigger] self.elevators@[i]).wf()
                && self.elevators@[i].floors@ == self.floors@
    }

    /// Builds a system of `num_elevators` cars. Each car gets a height
    /// controller and a motor of its own, built from the same settings and
    /// the same sample table. Faulty settings are refused, for any number of
    /// cars.
    pub fn new(
        num_elevators: usize,
        floors: Vec<i64>,
        height_pid: PIDParameters,
        motor_parameters: &MotorParameters,
        motor_samples: &Vec<MotorSamples>,
    ) -> (r: Result<Self, ConfigError>)
        ensures
            match r {
                Err(fault) => system_fault(height_pid, *motor_parameters, motor_samples@) == Some(
                    fault,
                ),
                Ok(system) => {
                    &&& system_fault(height_pid, *motor_parameters, motor_samples@) is None
                    &&& system.wf()
                    &&& system.floors == floors
                    &&& system.total_energy_consumed == 0
                    &&& system.elevators@.len() == num_elevators
                    &&& forall|i: int|
                        0 <= i < num_elevators ==> fresh_car(
                            #[trigger] system.elevators@[i],
                            floors@,
                            height_pid,
                            *motor_parameters,
                            motor_samples@,
                        )
                    &&& motor_parameters.pid_parameters.change_limit == 0
                        && motor_parameters.soft_current_limit >= 0 ==> all_guarded(
                        system.elevators@,
                    )
                },
            },
    {
        let controller: PIDController = match PIDController::from_parameters(height_pid) {
            Ok(pid) => pid,
            Err(fault) => {
                return Err(fault);
            },
        };
        match ElevatorMotor::new(motor_parameters, duplicate(motor_samples)) {
            Ok(_) => {},
            Err(fault) => {
                return Err(fault);
            },
        }
        let mut elevators: Vec<Elevator> = Vec::new();
        let mut i: usize = 0;
        while i < num_elevators
            invariant
                0 <= i <= num_elevators,
                elevators@.len() == i,
                controller == PIDController::fresh(height_pid),
                controller.wf(),
                motor_fault(*motor_parameters, motor_samples@) is None,
                forall|j: int|
                    0 <= j < i ==> fresh_car(
                        #[trigger] elevators@[j],
                        floors@,
                        height_pid,
                        *motor_parameters,
                        motor_samples@,
                    ),
                motor_parameters.pid_parameters.change_limit == 0
                    && motor_parameters.soft_current_limit >= 0 ==> all_guarded(elevators@),
            decreases num_elevators - i,
        {
            let motor: ElevatorMotor = match ElevatorMotor::new(
                motor_parameters,
                duplicate(motor_samples),
            ) {
                Ok(motor) => motor,
                Err(fault) => {
                    return Err(fault);
                },
            };
            let car: Elevator = Elevator::new(
                duplicate(&floors),
                ELEVATOR_MASS,
                COUNTER_MASS,
                MAX_SPEED,
                MAX_ACCEL,
                MAX_LOAD,
                TIME_MULTIPLIER,
                controller,
                motor,
            );
            elevators.push(car);
            i += 1;
        }
        Ok(Self { floors, elevators, total_energy_consumed: 0 })
    }

    /// Hands a call from floor `origin` to floor `destination` to the idle
    /// car with the smallest signed distance to `origin`, which is the one
    /// that stands lowest, and the first of them where several stand equally
    /// low. That car is sent to `destination` and takes a passenger's weight
    /// on board; its index is the answer. Where no car is idle the call is
    /// dropped and nothing changes.
    pub fn new_call(&mut self, origin: usize, destination: usize) -> (assigned: Option<usize>)
        requires
            old(self).wf(),
            origin < old(self).floors@.len(),
            destination < old(self).floors@.len(),
        ensures
            dispatched(*old(self), origin as int, destination as int, *final(self), assigned),
            final(self).wf(),
            all_guarded(old(self).elevators@) ==> all_guarded(final(self).elevators@),
    {
        let mut best: Option<usize> = None;
        let mut least: i64 = 0;
        let mut i: usize = 0;
        while i < self.elevators.len()
            invariant
                0 <= i <= self.elevators@.len(),
                *self == *old(self),
                self.wf(),
                origin < self.floors@.len(),
                match best {
                    None => forall|j: int| 0 <= j < i ==> !(#[trigger] self.elevators@[j]).is_idle,
                    Some(b) => {
                        &&& b < i
                        &&& self.elevators@[b as int].is_idle
                        &&& least == self.elevators@[b as int].height_above(origin as int)
                        &&& forall|j: int|
                            0 <= j < i && (#[trigger] self.elevators@[j]).is_idle ==> least
                                <= self.elevators@[j].height_above(origin as int)
                        &&& forall|j: int|
                            0 <= j < b && (#[trigger] self.elevators@[j]).is_idle ==> least
                                < self.elevators@[j].height_above(origin as int)
                    },
                },
            decreases self.elevators@.len() - i,
        {
            if self.elevators[i].is_idle() {
                let height: i64 = self.elevators[i].height_above_floor(origin);
                let lower: bool = match best {
                    None => true,
                    Some(_) => height < least,
                };
                if lower {
                    least = height;
                    best = Some(i);
                }
            }
            i += 1;
        }
        match best {
            None => None,
            Some(index) => {
                self.elevators[index].set_target(destination);
                self.elevators[index].load(PASSENGER_WEIGHT);
                assert(self.elevators@ =~= old(self).elevators@.update(
                    index as int,
                    old(self).elevators@[index as int].sent(destination as int).laden(
                        PASSENGER_WEIGHT,
                    ),
                ));
                Some(index)
            },
        }
    }

    /// One tick of the whole system, `elapsed` seconds of the caller's clock
    /// after the last: every car makes its tick, in order, and the energy
    /// that its motor drew is added to the system's total. The first car
    /// whose motor cannot follow its controller is reported, and the cars
    /// after it are left alone.
    pub fn update(&mut self, elapsed: i64) -> (r: Result<(), CurrentLimitExceeded>)
        requires
            old(self).wf(),
        ensures
            advanced(*old(self), elapsed, *final(self), r),
            final(self).wf(),
            all_guarded(old(self).elevators@) ==> r is Ok && all_guarded(final(self).elevators@),
    {
        let mut i: usize = 0;
        while i < self.elevators.len()
            invariant
                0 <= i <= self.elevators@.len(),
                self.elevators@.len() == old(self).elevators@.len(),
                self.floors == old(self).floors,
                self.wf(),
                self.elevators@ == ticked(old(self).elevators@, elapsed, i as int),
                self.total_energy_consumed == energy_after(
                    old(self).elevators@,
                    elapsed,
                    old(self).total_energy_consumed as int,
                    i as int,
                ),
                forall|j: int|
                    0 <= j < i ==> (#[trigger] old(self).elevators@[j]).sustains(elapsed),
                all_guarded(old(self).elevators@) ==> all_guarded(self.elevators@),
            decreases self.elevators@.len() - i,
        {
            let ghost car = self.elevators@[i as int];
            assert(car == old(self).elevators@[i as int]);
            let before: i64 = self.elevators[i].get_used_energy();
            let outcome = self.elevators[i].update(elapsed);
            let after: i64 = self.elevators[i].get_used_energy();
            assert(self.elevators@[i as int] == car.after_update(elapsed));
            let spent: i64 = minus(after, before);
            assert(spent == drawn(car, elapsed));
            self.total_energy_consumed = plus(self.total_energy_consumed, spent);
            assert(self.elevators@ =~= ticked(old(self).elevators@, elapsed, i + 1));
            if let Err(fault) = outcome {
                assert(first_failure(old(self).elevators@, elapsed, i as int));
                return Err(fault);
            }
            i += 1;
        }
        Ok(())
    }

    /// A visitor whose two floors were drawn as `from_draw` and `to_draw`
    /// calls a car from the one to the other. Where both draws stand for the
    /// same floor nobody calls.
    pub fn visit(&mut self, from_draw: i32, to_draw: i32) -> (assigned: Option<usize>)
        requires
            old(self).wf(),
        ensures
            visited(*old(self), from_draw, to_draw, *final(self), assigned),
            final(self).wf(),
    {
        let count: usize = self.floors.len();
        if count == 0 {
            return None;
        }
        let from: usize = floor_for(from_draw, count);
        let to: usize = floor_for(to_draw, count);
        if from != to {
            self.new_call(from, to)
        } else {
            None
        }
    }

    /// One step of a simulation with random visitors: a visitor between two
    /// floors drawn at random calls a car, then the system makes a tick.
    /// Whatever was drawn, the system ends as `visit` and then `update`
    /// leave it for some pair of draws.
    pub fn run_simulation(&mut self, elapsed: i64) -> (r: (
        Option<usize>,
        Result<(), CurrentLimitExceeded>,
    ))
        requires
            old(self).wf(),
        ensures
            exists|from_draw: i32, to_draw: i32, called: ElevatorSystem|
                #[trigger] visited(*old(self), from_draw, to_draw, called, r.0) && advanced(
                    called,
                    elapsed,
                    *final(self),
                    r.1,
                ),
            final(self).wf(),
    {
        let from_draw: i32 = draw();
        let to_draw: i32 = draw();
        let assigned: Option<usize> = self.visit(from_draw, to_draw);
        let ghost called = *self;
        let outcome = self.update(elapsed);
        let r = (assigned, outcome);
        assert(visited(*old(self), from_draw, to_draw, called, r.0) && advanced(
            called,
            elapsed,
            *self,
            r.1,
        ));
        r
    }
}

/// A call that is taken changes the car that takes it and no other, and
/// leaves one idle car fewer: the car that took it was idle and is not any
/// more.
pub proof fn lemma_call_changes_one_car(
    before: ElevatorSystem,
    origin: int,
    destination: int,
    after: ElevatorSystem,
    best: usize,
)
    requires
        dispatched(before, origin, destination, after, Some(best)),
    ensures
        after.elevators@.len() == before.elevators@.len(),
        before.elevators@[best as int].is_idle,
        !after.elevators@[best as int].is_idle,
        forall|j: int|
            0 <= j < before.elevators@.len() && j != best ==> after.elevators@[j]
                == before.elevators@[j],
{
}

} // verus!
