//! The elevator's motor: a speed controller whose output is a current, and
//! the sample table that turns the current into a speed.
use vstd::prelude::*;
use crate::error::{ConfigError, CurrentLimitExceeded};
use crate::fixed::{
    lesser, magnitude, negate, opposite, over, plus, product, ratio, smaller, sum, times, SCALE,
};
use crate::motor_parameters::MotorParameters;
use crate::motor_samples::{
    covers, current_column, greatest, operating_point, rpm_column, table_fault, tnm_column,
    valid_table, MotorSamples,
};
use crate::pid_controller::{
    lemma_update_keeps_output_within_limits, PIDController, PIDParameters,
};

verus! {

/// A motor with its gearbox, its speed controller and its sample table.
#[derive(Debug)]
pub struct ElevatorMotor {
    pub motor_samples: Vec<MotorSamples>,
    /// The operating point of the last commanded current.
    pub current_properties: MotorSamples,
    pub gearbox_ratio: i64,
    /// Speed of the motor shaft.
    pub current_speed: i64,
    pub speed_pid: PIDController,
    pub total_energy_used: i64,
    /// Greatest force at the rim of the gearbox's output shaft.
    pub max_force: i64,
}

/// The speed controller of a motor: built from the document's settings,
/// then limited to what the table and the soft limits allow. Targets are
/// held within `±` the lesser of the table's greatest speed and the soft
/// speed limit, outputs within `±` the lesser of the table's greatest
/// current and the soft current limit.
pub open spec fn wired_controller(
    pid: PIDParameters,
    soft_rpm_limit: i64,
    soft_current_limit: i64,
    s: Seq<MotorSamples>,
) -> PIDController {
    let rpm_limit = lesser(greatest(rpm_column(s)), soft_rpm_limit as int);
    let current_limit = lesser(greatest(current_column(s)), soft_current_limit as int);
    PIDController {
        enable_output_limits: true,
        min_output: opposite(current_limit) as i64,
        max_output: current_limit as i64,
        enable_target_limits: true,
        min_target: opposite(rpm_limit) as i64,
        max_target: rpm_limit as i64,
        ..PIDController::fresh(pid)
    }
}

/// Why no motor can be built from these settings and this table, if so. The
/// controller's settings are looked at first, then the table, then the
/// gearbox, and last whether the table has an operating point at rest.
pub open spec fn motor_fault(p: MotorParameters, s: Seq<MotorSamples>) -> Option<ConfigError> {
    if p.pid_parameters.update_freq == 0 {
        Some(ConfigError::ZeroUpdateFrequency)
    } else if table_fault(s) is Some {
        table_fault(s)
    } else if p.gearbox_ratio == 0 {
        Some(ConfigError::ZeroGearboxRatio)
    } else if !covers(s, 0) {
        Some(ConfigError::NoRestPoint)
    } else {
        None
    }
}

impl ElevatorMotor {
    /// The table is valid, the gearbox ratio is not zero and the speed
    /// controller can run.
    pub open spec fn wf(self) -> bool {
        valid_table(self.motor_samples@) && self.gearbox_ratio != 0 && self.speed_pid.wf()
    }

    /// The speed controller cannot ask for a current that the table does
    /// not cover: its outputs are limited to a range within the table's
    /// greatest current, it has no limit on their rate of change, and its
    /// last output lies in that range.
    pub open spec fn guarded(self) -> bool {
        &&& self.motor_samples@.len() >= 2
        &&& self.speed_pid.enable_output_limits
        &&& self.speed_pid.change_limit == 0
        &&& self.speed_pid.min_output <= self.speed_pid.max_output
        &&& -greatest(current_column(self.motor_samples@)) <= self.speed_pid.min_output
        &&& self.speed_pid.max_output <= greatest(current_column(self.motor_samples@))
        &&& self.speed_pid.min_output <= self.speed_pid.prev_output <= self.speed_pid.max_output
    }

    /// Speed of the gearbox's output shaft.
    pub open spec fn output_speed(self) -> int {
        ratio(self.current_speed as int, self.gearbox_ratio as int)
    }

    /// The motor-shaft speed that stands for `target` at the output shaft.
    pub open spec fn shaft_target(self, target: i64) -> i64 {
        product(target as int, self.gearbox_ratio as int) as i64
    }

    /// The motor after a speed of `target` at the output shaft was asked for.
    pub open spec fn aimed(self, target: i64) -> ElevatorMotor {
        ElevatorMotor {
            speed_pid: PIDController {
                target: self.speed_pid.admitted_target(self.shaft_target(target)) as i64,
                ..self.speed_pid
            },
            ..self
        }
    }

    /// The motor after `delta_time` at its present operating point: energy
    /// has been drawn and the speed controller has seen the present speed.
    pub open spec fn driven(self, delta_time: i64) -> ElevatorMotor {
        ElevatorMotor {
            total_energy_used: sum(
                self.total_energy_used as int,
                product(self.current_properties.kwp_in as int, delta_time as int),
            ) as i64,
            speed_pid: self.speed_pid.after_update(self.current_speed, delta_time),
            ..self
        }
    }

    /// The current that the speed controller commands after `delta_time`.
    pub open spec fn commanded(self, delta_time: i64) -> i64 {
        self.driven(delta_time).speed_pid.prev_output
    }

    /// The motor once `current` flows, where the table covers it.
    pub open spec fn fed(self, current: i64) -> ElevatorMotor {
        ElevatorMotor {
            current_properties: operating_point(self.motor_samples@, current),
            current_speed: operating_point(self.motor_samples@, current).rpm,
            ..self
        }
    }

    /// Whether a call of `update` after `delta_time` stays within the table.
    pub open spec fn sustains(self, delta_time: i64) -> bool {
        covers(self.motor_samples@, self.commanded(delta_time))
    }

    /// The motor after a call of `update`. A command that the table does not
    /// cover leaves the operating point where it was.
    pub open spec fn after_update(self, delta_time: i64) -> ElevatorMotor {
        if self.sustains(delta_time) {
            self.driven(delta_time).fed(self.commanded(delta_time))
        } else {
            self.driven(delta_time)
        }
    }

    /// Builds a motor at rest from its settings and its sample table.
    pub fn new(parameters: &MotorParameters, motor_samples: Vec<MotorSamples>) -> (r: Result<
        Self,
        ConfigError,
    >)
        ensures
            match r {
                Err(fault) => motor_fault(*parameters, motor_samples@) == Some(fault),
                Ok(motor) => {
                    &&& motor_fault(*parameters, motor_samples@) is None
                    &&& motor.wf()
                    &&& motor.motor_samples == motor_samples
                    &&& motor.gearbox_ratio == parameters.gearbox_ratio
                    &&& motor.current_properties == operating_point(motor_samples@, 0)
                    &&& motor.current_speed == 0
                    &&& motor.total_energy_used == 0
                    &&& motor.speed_pid == wired_controller(
                        parameters.pid_parameters,
                        parameters.soft_rpm_limit,
                        parameters.soft_current_limit,
                        motor_samples@,
                    )
                    &&& motor.max_force == product(
                        product(
                            greatest(tnm_column(motor_samples@)),
                            parameters.gearbox_ratio as int,
                        ),
                        parameters.output_shaft_radius as int,
                    )
                    &&& parameters.pid_parameters.change_limit == 0
                        && parameters.soft_current_limit >= 0 ==> motor.guarded()
                },
            },
    {
        let mut speed_pid: PIDController = match PIDController::from_parameters(
            parameters.pid_parameters,
        ) {
            Ok(pid) => pid,
            Err(fault) => {
                return Err(fault);
            },
        };
        match MotorSamples::check_properties(&motor_samples) {
            Ok(()) => {},
            Err(fault) => {
                return Err(fault);
            },
        }
        if parameters.gearbox_ratio == 0 {
            return Err(ConfigError::ZeroGearboxRatio);
        }
        let rpm_limit: i64 = smaller(
            MotorSamples::get_max_rpm(&motor_samples),
            parameters.soft_rpm_limit,
        );
        let current_limit: i64 = smaller(
            MotorSamples::get_max_current(&motor_samples),
            parameters.soft_current_limit,
        );
        speed_pid.set_output_limits(negate(current_limit), current_limit);
        speed_pid.set_target_limits(negate(rpm_limit), rpm_limit);

        let max_torque: i64 = times(
            MotorSamples::get_max_tnm(&motor_samples),
            parameters.gearbox_ratio,
        );
        let max_force: i64 = times(max_torque, parameters.output_shaft_radius);

        let current_properties: MotorSamples =
            match MotorSamples::simulate_properties_from_current(&motor_samples, 0) {
            Some(point) => point,
            None => {
                return Err(ConfigError::NoRestPoint);
            },
        };
        Ok(
            Self {
                motor_samples,
                gearbox_ratio: parameters.gearbox_ratio,
                current_properties,
                speed_pid,
                current_speed: 0,
                total_energy_used: 0,
                max_force,
            },
        )
    }

    /// Speed of the gearbox's output shaft.
    pub fn get_current_speed(&self) -> (speed: i64)
        requires
            self.wf(),
        ensures
            speed == self.output_speed(),
    {
        over(self.current_speed, self.gearbox_ratio)
    }

    /// Asks for a speed of the gearbox's output shaft. The answer is
    /// `false` where the speed controller had to cut the target down to one
    /// of its limits.
    pub fn set_target_speed(&mut self, target: i64) -> (stored_as_asked: bool)
        ensures
            *final(self) == old(self).aimed(target),
            stored_as_asked == old(self).speed_pid.admits(old(self).shaft_target(target)),
            old(self).wf() ==> final(self).wf(),
            old(self).guarded() ==> final(self).guarded(),
    {
        let motor_target: i64 = times(target, self.gearbox_ratio);
        self.speed_pid.set_target(motor_target)
    }

    /// The energy drawn so far.
    pub fn get_total_energy_used(&self) -> (energy: i64)
        ensures
            energy == self.total_energy_used,
    {
        self.total_energy_used
    }

    /// Whether the motor shaft's speed is within tolerance of its target.
    pub fn has_reached_target(&self) -> (r: bool)
        ensures
            r == self.speed_pid.reached(self.current_speed),
    {
        self.speed_pid.has_reached_target(self.current_speed)
    }

    /// Lets `current` flow and takes the speed from the table. A current that
    /// the table does not cover is refused, and the motor stays as it was.
    pub fn give_current(&mut self, current: i64) -> (r: Result<(), CurrentLimitExceeded>)
        ensures
            covers(old(self).motor_samples@, current) ==> r is Ok && *final(self) == old(self).fed(
                current,
            ),
            !covers(old(self).motor_samples@, current) ==> r == Err::<(), CurrentLimitExceeded>(
                CurrentLimitExceeded { current },
            ) && *final(self) == *old(self),
            old(self).wf() ==> final(self).wf(),
            old(self).guarded() ==> final(self).guarded(),
    {
        match MotorSamples::simulate_properties_from_current(&self.motor_samples, current) {
            Some(point) => {
                self.current_properties = point;
                self.current_speed = point.rpm;
                Ok(())
            },
            None => Err(CurrentLimitExceeded { current }),
        }
    }

    /// Advances the motor by `delta_time`: draws the energy of the present
    /// operating point, steps the speed controller against the present
    /// speed, and moves to the operating point of the current that the
    /// controller commands. A command that the table does not cover is
    /// reported and not followed.
    pub fn update(&mut self, delta_time: i64) -> (r: Result<(), CurrentLimitExceeded>)
        requires
            old(self).wf(),
        ensures
            *final(self) == old(self).after_update(delta_time),
            r is Ok <==> old(self).sustains(delta_time),
            r is Err ==> r == Err::<(), CurrentLimitExceeded>(
                CurrentLimitExceeded { current: old(self).commanded(delta_time) },
            ),
            final(self).wf(),
            old(self).guarded() ==> r is Ok && final(self).guarded(),
    {
        proof {
            if self.guarded() {
                lemma_guarded_motor_follows(*self, delta_time);
            }
        }
        self.total_energy_used = plus(
            self.total_energy_used,
            times(self.current_properties.kwp_in, delta_time),
        );
        let new_current: i64 = self.speed_pid.update(self.current_speed, delta_time);
        self.give_current(new_current)
    }
}

/// The energy that a motor has drawn does not fall while time runs forward
/// and the operating point draws power, whether or not the motor can follow
/// its controller.
pub proof fn lemma_energy_never_falls(motor: ElevatorMotor, delta_time: i64)
    requires
        delta_time >= 0,
        motor.current_properties.kwp_in >= 0,
    ensures
        motor.after_update(delta_time).total_energy_used >= motor.total_energy_used,
{
    reveal(product);
    let power = motor.current_properties.kwp_in as int;
    assert(power * delta_time >= 0) by (nonlinear_arith)
        requires
            power >= 0,
            delta_time >= 0,
    ;
    assert(magnitude(power * delta_time) / (SCALE as int) >= 0);
}

/// A guarded motor can follow its controller through every tick, and is
/// guarded afterwards: its commanded current never leaves the table.
pub proof fn lemma_guarded_motor_follows(motor: ElevatorMotor, delta_time: i64)
    requires
        motor.guarded(),
    ensures
        motor.sustains(delta_time),
        motor.after_update(delta_time).guarded(),
{
    lemma_update_keeps_output_within_limits(motor.speed_pid, motor.current_speed, delta_time);
}

} // verus!
