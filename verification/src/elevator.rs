//! One elevator car: a height controller whose output is the speed that
//! the car's motor is asked for.
use vstd::prelude::*;
use crate::error::CurrentLimitExceeded;
use crate::fixed::{
    difference, held, hold, minus, over, plus, product, ratio, sum, times,
};
use crate::motor::ElevatorMotor;
use crate::pid_controller::PIDController;

verus! {

/// Standard gravity.
pub const GRAVITY: i64 = 9_810_000;

/// A car with its height controller and its motor.
#[derive(Debug)]
pub struct Elevator {
    /// Height of each floor, lowest first.
    pub floors: Vec<i64>,
    pub is_idle: bool,
    pub current_height: i64,
    pub current_accel: i64,
    pub height_pid: PIDController,
    pub max_speed: i64,
    pub max_accel: i64,
    pub elevator_mass: i64,
    pub elevator_counter_mass: i64,
    pub max_load: i64,
    pub current_load: i64,
    pub motor: ElevatorMotor,
    pub gravity: i64,
    /// Simulated seconds per second of the caller's clock.
    pub time_multiplier: i64,
}

impl Elevator {
    /// The height controller can run and the motor is well formed.
    pub open spec fn wf(self) -> bool {
        self.height_pid.wf() && self.motor.wf()
    }

    /// The simulated time that passes while `elapsed` passes on the
    /// caller's clock.
    pub open spec fn delta_time(self, elapsed: i64) -> i64 {
        product(elapsed as int, self.time_multiplier as int) as i64
    }

    /// How far floor `floor_idx` lies above the car.
    pub open spec fn distance(self, floor_idx: int) -> int {
        difference(self.floors@[floor_idx] as int, self.current_height as int)
    }

    /// How far the car stands above floor `floor_idx`.
    pub open spec fn height_above(self, floor_idx: int) -> int {
        difference(self.current_height as int, self.floors@[floor_idx] as int)
    }

    /// The car after it was sent to floor `floor_idx`.
    pub open spec fn sent(self, floor_idx: int) -> Elevator {
        Elevator {
            height_pid: PIDController {
                target: self.height_pid.admitted_target(self.floors@[floor_idx]) as i64,
                ..self.height_pid
            },
            is_idle: false,
            ..self
        }
    }

    /// How far below the top of a shaft drawn `box_height` high the car is
    /// to be drawn: the car's height is scaled by the height of the top floor,
    /// and the result is held within the drawing. Over a top floor at height
    /// zero the car is drawn at the bottom.
    pub open spec fn shaft_offset(self, box_height: i64) -> int {
        let top = self.floors@.last();
        if top == 0 {
            box_height as int
        } else {
            held(
                difference(
                    box_height as int,
                    product(ratio(self.current_height as int, top as int), box_height as int),
                ),
                0,
                box_height as int,
            )
        }
    }

    /// The car with `weight` more on board.
    pub open spec fn laden(self, weight: i64) -> Elevator {
        Elevator {
            current_load: sum(self.current_load as int, weight as int) as i64,
            ..self
        }
    }

    /// Whether the car's motor can follow its controller through the next
    /// tick.
    pub open spec fn sustains(self, elapsed: i64) -> bool {
        self.motor.sustains(self.delta_time(elapsed))
    }

    /// The force that the motor has to supply for an acceleration.
    pub open spec fn motor_force(self, target_accel: i64) -> int {
        difference(
            product(
                difference(
                    sum(self.elevator_mass as int, self.current_load as int),
                    self.elevator_counter_mass as int,
                ),
                self.gravity as int,
            ),
            product(
                sum(
                    sum(self.elevator_mass as int, self.current_load as int),
                    self.elevator_counter_mass as int,
                ),
                target_accel as int,
            ),
        )
    }

    /// First half of a tick: the car has moved for `delta_time` at the speed
    /// that the motor had reached, and the motor has been advanced.
    pub open spec fn moved(self, delta_time: i64) -> Elevator {
        Elevator {
            current_height: sum(
                self.current_height as int,
                product(self.motor.output_speed(), delta_time as int),
            ) as i64,
            motor: self.motor.after_update(delta_time),
            ..self
        }
    }

    /// Second half of a tick: the height controller has seen the car's
    /// height, its output has been handed to the motor as the speed to reach,
    /// and the car is idle if and only if it is within tolerance of its
    /// target.
    pub open spec fn steered(self, delta_time: i64) -> Elevator {
        let height_pid = self.height_pid.after_update(self.current_height, delta_time);
        Elevator {
            height_pid,
            motor: self.motor.aimed(height_pid.prev_output),
            is_idle: height_pid.reached(self.current_height),
            ..self
        }
    }

    /// The car after a call of `update`. Where the motor cannot follow its
    /// controller, the tick ends after its first half.
    pub open spec fn after_update(self, elapsed: i64) -> Elevator {
        let delta_time = self.delta_time(elapsed);
        if self.sustains(elapsed) {
            self.moved(delta_time).steered(delta_time)
        } else {
            self.moved(delta_time)
        }
    }

    /// An idle, empty car at height zero.
    pub fn new(
        floors: Vec<i64>,
        elevator_mass: i64,
        elevator_counter_mass: i64,
        max_speed: i64,
        max_accel: i64,
        max_load: i64,
        time_multiplier: i64,
        height_pid: PIDController,
        motor: ElevatorMotor,
    ) -> (car: Self)
        ensures
            car == (Elevator {
                floors,
                is_idle: true,
                current_height: 0,
                current_accel: 0,
                height_pid,
                max_speed,
                max_accel,
                elevator_mass,
                elevator_counter_mass,
                max_load,
                current_load: 0,
                motor,
                gravity: GRAVITY,
                time_multiplier,
            }),
    {
        Self {
            floors,
            is_idle: true,
            current_height: 0,
            current_accel: 0,
            height_pid,
            max_speed,
            max_accel,
            elevator_mass,
            elevator_counter_mass,
            max_load,
            current_load: 0,
            motor,
            gravity: GRAVITY,
            time_multiplier,
        }
    }

    /// The energy that the car's motor has drawn so far.
    pub fn get_used_energy(&self) -> (energy: i64)
        ensures
            energy == self.motor.total_energy_used,
    {
        self.motor.get_total_energy_used()
    }

    /// Mass of car, load and counterweight together.
    pub fn get_total_mass(&self) -> (mass: i64)
        ensures
            mass == sum(
                sum(self.elevator_mass as int, self.current_load as int),
                self.elevator_counter_mass as int,
            ),
    {
        plus(plus(self.elevator_mass, self.current_load), self.elevator_counter_mass)
    }

    /// The simulated time that passes while `elapsed` passes on the
    /// caller's clock.
    pub fn get_delta_time(&self, elapsed: i64) -> (delta_time: i64)
        ensures
            delta_time == self.delta_time(elapsed),
    {
        times(elapsed, self.time_multiplier)
    }

    /// Steps the height controller against the car's height. Its output is
    /// the speed to ask the motor for.
    pub fn calculate_target_speed(&mut self, delta_time: i64) -> (target_speed: i64)
        requires
            old(self).height_pid.wf(),
        ensures
            *final(self) == (Elevator {
                height_pid: old(self).height_pid.after_update(
                    old(self).current_height,
                    delta_time,
                ),
                ..*old(self)
            }),
            target_speed == final(self).height_pid.prev_output,
            final(self).height_pid.wf(),
    {
        self.height_pid.update(self.current_height, delta_time)
    }

    /// The force that the motor has to supply for an acceleration: the
    /// weight that the counterweight does not balance, less the inertia of
    /// everything that moves.
    pub fn calculate_motor_force(&self, target_accel: i64) -> (force: i64)
        ensures
            force == self.motor_force(target_accel),
    {
        let m: i64 = self.get_total_mass();
        let e: i64 = plus(self.elevator_mass, self.current_load);
        minus(times(minus(e, self.elevator_counter_mass), self.gravity), times(m, target_accel))
    }

    /// Takes `weight` on board.
    pub fn load(&mut self, weight: i64)
        ensures
            *final(self) == old(self).laden(weight),
    {
        self.current_load = plus(self.current_load, weight);
    }

    /// Lets `weight` off.
    pub fn unload(&mut self, weight: i64)
        ensures
            *final(self) == (Elevator {
                current_load: difference(old(self).current_load as int, weight as int) as i64,
                ..*old(self)
            }),
    {
        self.current_load = minus(self.current_load, weight);
    }

    /// Whether the car's target lies above it.
    pub fn direction(&self) -> (up: bool)
        ensures
            up == (self.height_pid.target > self.current_height),
    {
        self.height_pid.target > self.current_height
    }

    /// How far floor `floor_idx` lies above the car; negative for a floor
    /// below it.
    pub fn distance_to_floor(&self, floor_idx: usize) -> (distance: i64)
        requires
            floor_idx < self.floors@.len(),
        ensures
            distance == self.distance(floor_idx as int),
    {
        minus(self.floors[floor_idx], self.current_height)
    }

    /// How far the car stands above floor `floor_idx`; negative for a car
    /// below it.
    pub fn height_above_floor(&self, floor_idx: usize) -> (height: i64)
        requires
            floor_idx < self.floors@.len(),
        ensures
            height == self.height_above(floor_idx as int),
    {
        minus(self.current_height, self.floors[floor_idx])
    }

    /// Where to draw the car in a shaft drawn `box_height` high, measured
    /// down from the top of the drawing.
    pub fn position_in_shaft(&self, box_height: i64) -> (offset: i64)
        requires
            self.floors@.len() > 0,
            box_height >= 0,
        ensures
            offset == self.shaft_offset(box_height),
            0 <= offset <= box_height,
    {
        let top: i64 = self.floors[self.floors.len() - 1];
        if top == 0 {
            return box_height;
        }
        let share: i64 = over(self.current_height, top);
        hold(minus(box_height, times(share, box_height)), 0, box_height)
    }

    /// Whether the car has no target that it has not reached.
    pub fn is_idle(&self) -> (idle: bool)
        ensures
            idle == self.is_idle,
    {
        self.is_idle
    }

    /// Sends the car to floor `floor_idx`. From now on it is not idle.
    pub fn set_target(&mut self, floor_idx: usize)
        requires
            floor_idx < old(self).floors@.len(),
        ensures
            *final(self) == old(self).sent(floor_idx as int),
    {
        let height: i64 = self.floors[floor_idx];
        self.height_pid.set_target(height);
        self.is_idle = false;
    }

    /// Speed of the car.
    pub fn get_current_speed(&self) -> (speed: i64)
        requires
            self.motor.wf(),
        ensures
            speed == self.motor.output_speed(),
    {
        self.motor.get_current_speed()
    }

    /// First half of a tick: moves the car at the speed that the motor had
    /// reached, then advances the motor.
    pub fn travel(&mut self, delta_time: i64) -> (r: Result<(), CurrentLimitExceeded>)
        requires
            old(self).wf(),
        ensures
            *final(self) == old(self).moved(delta_time),
            r is Ok <==> old(self).motor.sustains(delta_time),
            r is Err ==> r == Err::<(), CurrentLimitExceeded>(
                CurrentLimitExceeded { current: old(self).motor.commanded(delta_time) },
            ),
            final(self).wf(),
            old(self).motor.guarded() ==> r is Ok && final(self).motor.guarded(),
    {
        self.current_height = plus(
            self.current_height,
            times(self.motor.get_current_speed(), delta_time),
        );
        self.motor.update(delta_time)
    }

    /// Second half of a tick: steps the height controller against the car's
    /// height, hands its output to the motor as the speed to reach, and
    /// notes whether the car has arrived.
    pub fn steer(&mut self, delta_time: i64)
        requires
            old(self).wf(),
        ensures
            *final(self) == old(self).steered(delta_time),
            final(self).wf(),
            old(self).motor.guarded() ==> final(self).motor.guarded(),
    {
        let target_speed: i64 = self.calculate_target_speed(delta_time);
        self.motor.set_target_speed(target_speed);
        self.is_idle = self.height_pid.has_reached_target(self.current_height);
    }

    /// One tick, `elapsed` seconds of the caller's clock after the last.
    /// The car first moves at the speed that the motor reached in the tick
    /// before, and the motor is advanced. Then the height controller sees
    /// the new height and its output becomes the motor's next target, so a
    /// new command takes effect one tick later. A motor that cannot follow
    /// its controller ends the tick early and is reported.
    pub fn update(&mut self, elapsed: i64) -> (r: Result<(), CurrentLimitExceeded>)
        requires
            old(self).wf(),
        ensures
            *final(self) == old(self).after_update(elapsed),
            r is Ok <==> old(self).sustains(elapsed),
            r is Err ==> r == Err::<(), CurrentLimitExceeded>(
                CurrentLimitExceeded {
                    current: old(self).motor.commanded(old(self).delta_time(elapsed)),
                },
            ),
            r is Ok ==> final(self).is_idle == final(self).height_pid.reached(
                final(self).current_height,
            ),
            final(self).wf(),
            final(self).floors == old(self).floors,
            old(self).motor.guarded() ==> r is Ok && final(self).motor.guarded(),
    {
        let delta_time: i64 = self.get_delta_time(elapsed);
        match self.travel(delta_time) {
            Ok(()) => {},
            Err(fault) => {
                return Err(fault);
            },
        }
        self.steer(delta_time);
        Ok(())
    }
}

} // verus!
