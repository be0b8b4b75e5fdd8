//! A discrete PID controller that steps at a fixed rate of its own.
use vstd::prelude::*;
use crate::error::ConfigError;
use crate::fixed::{
    difference, distance, held, hold, magnitude, minus, negate, opposite, over, plus, product,
    ratio, sum, times, SCALE,
};

verus! {

/// The settings of a controller, as a parameter document gives them.
#[derive(Clone, Copy, Debug, PartialEq, Eq, Structural)]
pub struct PIDParameters {
    pub kp: i64,
    pub ki: i64,
    pub kd: i64,
    pub integral_limit: i64,
    pub update_freq: i64,
    pub tolerance: i64,
    pub enable_target_limits: bool,
    pub max_target: i64,
    pub min_target: i64,
    pub enable_output_limits: bool,
    pub max_output: i64,
    pub min_output: i64,
    pub change_limit: i64,
}

/// Target limits are off unless the document turns them on.
pub fn default_enable_target_limits() -> (r: bool)
    ensures
        !r,
{
    false
}

/// The lower target bound where the document gives none.
pub fn default_min_target() -> (r: i64)
    ensures
        r == 0,
{
    0
}

/// The upper target bound where the document gives none.
pub fn default_max_target() -> (r: i64)
    ensures
        r == 0,
{
    0
}

/// Output limits are off unless the document turns them on.
pub fn default_enable_output_limits() -> (r: bool)
    ensures
        !r,
{
    false
}

/// The lower output bound where the document gives none.
pub fn default_min_output() -> (r: i64)
    ensures
        r == 0,
{
    0
}

/// The upper output bound where the document gives none.
pub fn default_max_output() -> (r: i64)
    ensures
        r == 0,
{
    0
}

/// No limit on the output's rate of change where the document gives none.
pub fn default_change_limit() -> (r: i64)
    ensures
        r == 0,
{
    0
}

/// The controller itself.
#[derive(Clone, Copy, Debug, PartialEq, Eq, Structural)]
pub struct PIDController {
    pub target: i64,
    pub kp: i64,
    pub ki: i64,
    pub kd: i64,
    pub integral_limit: i64,
    pub enable_target_limits: bool,
    pub max_target: i64,
    pub min_target: i64,
    pub enable_output_limits: bool,
    pub max_output: i64,
    pub min_output: i64,
    pub change_limit: i64,
    pub prev_error: i64,
    pub integral: i64,
    pub prev_output: i64,
    /// Time since the last step, to keep the steps at a constant frequency.
    pub accumulated_time: i64,
    pub update_freq: i64,
    pub tolerance: i64,
}

impl PIDController {
    /// A controller can run: its update frequency is not zero.
    pub open spec fn wf(self) -> bool {
        self.update_freq != 0
    }

    /// The controller that `new` builds from these settings.
    pub open spec fn fresh(p: PIDParameters) -> PIDController {
        PIDController {
            target: 0,
            kp: p.kp,
            ki: p.ki,
            kd: p.kd,
            integral_limit: p.integral_limit,
            enable_target_limits: p.enable_target_limits,
            max_target: p.max_target,
            min_target: p.min_target,
            enable_output_limits: p.enable_output_limits,
            max_output: p.max_output,
            min_output: p.min_output,
            change_limit: p.change_limit,
            prev_error: 0,
            integral: 0,
            prev_output: 0,
            accumulated_time: 0,
            update_freq: p.update_freq,
            tolerance: p.tolerance,
        }
    }

    /// The target that is stored when `target` is asked for.
    pub open spec fn admitted_target(self, target: i64) -> int {
        if self.enable_target_limits {
            held(target as int, self.min_target as int, self.max_target as int)
        } else {
            target as int
        }
    }

    /// Whether `target` can be stored as it is.
    pub open spec fn admits(self, target: i64) -> bool {
        !self.enable_target_limits || (self.min_target <= target && target <= self.max_target)
    }

    /// Whether `value` is closer to the target than the tolerance.
    pub open spec fn reached(self, value: i64) -> bool {
        magnitude(self.target - value) < self.tolerance
    }

    /// The time between two steps.
    pub open spec fn period(self) -> int {
        ratio(SCALE as int, self.update_freq as int)
    }

    /// Whether a call of `update` after `delta_time` more seconds makes a step.
    pub open spec fn due(self, delta_time: i64) -> bool {
        sum(self.accumulated_time as int, delta_time as int) >= self.period()
    }

    /// The error of a step at `current_value`.
    pub open spec fn error(self, current_value: i64) -> int {
        difference(self.target as int, current_value as int)
    }

    /// The running integral after a step.
    pub open spec fn stepped_integral(self, current_value: i64, delta_time: i64) -> int {
        let grown = sum(
            self.integral as int,
            product(self.error(current_value), delta_time as int),
        );
        if self.integral_limit != 0 {
            if grown > self.integral_limit {
                self.integral_limit as int
            } else if grown < opposite(self.integral_limit as int) {
                opposite(self.integral_limit as int)
            } else {
                grown
            }
        } else {
            grown
        }
    }

    /// The error's rate of change over a step; zero where no time has passed.
    pub open spec fn slope(self, current_value: i64, delta_time: i64) -> int {
        if delta_time > 0 {
            ratio(
                difference(self.error(current_value), self.prev_error as int),
                delta_time as int,
            )
        } else {
            0
        }
    }

    /// The weighted sum of the three terms.
    pub open spec fn raw_output(self, current_value: i64, delta_time: i64) -> int {
        sum(
            sum(
                product(self.kp as int, self.error(current_value)),
                product(self.ki as int, self.stepped_integral(current_value, delta_time)),
            ),
            product(self.kd as int, self.slope(current_value, delta_time)),
        )
    }

    /// The raw output held within the output limits, where they are on.
    pub open spec fn limited_output(self, current_value: i64, delta_time: i64) -> int {
        let raw = self.raw_output(current_value, delta_time);
        if self.enable_output_limits {
            held(raw, self.min_output as int, self.max_output as int)
        } else {
            raw
        }
    }

    /// How far the output may lie from the current value after `delta_time`.
    pub open spec fn reach(self, delta_time: i64) -> int {
        let step = product(self.change_limit as int, delta_time as int);
        if step < 0 {
            opposite(step)
        } else {
            step
        }
    }

    /// The output of a step: the limited output, brought within reach of the
    /// current value where a rate limit is set.
    pub open spec fn output(self, current_value: i64, delta_time: i64) -> int {
        let limited = self.limited_output(current_value, delta_time);
        let reach = self.reach(delta_time);
        if self.change_limit != 0 && magnitude(limited - current_value) > reach {
            if limited > current_value {
                sum(current_value as int, reach)
            } else {
                difference(current_value as int, reach)
            }
        } else {
            limited
        }
    }

    /// The controller after a call of `update`.
    #[verifier::opaque]
    pub open spec fn after_update(self, current_value: i64, delta_time: i64) -> PIDController {
        if self.due(delta_time) {
            PIDController {
                accumulated_time: 0,
                integral: self.stepped_integral(current_value, delta_time) as i64,
                prev_error: self.error(current_value) as i64,
                prev_output: self.output(current_value, delta_time) as i64,
                ..self
            }
        } else {
            PIDController {
                accumulated_time: sum(self.accumulated_time as int, delta_time as int) as i64,
                ..self
            }
        }
    }

    /// Builds a controller from a parameter document's settings.
    pub fn from_parameters(parameters: PIDParameters) -> (r: Result<Self, ConfigError>)
        ensures
            parameters.update_freq == 0 ==> r == Err::<Self, ConfigError>(
                ConfigError::ZeroUpdateFrequency,
            ),
            parameters.update_freq != 0 ==> r == Ok::<Self, ConfigError>(Self::fresh(parameters)),
    {
        Self::new(
            parameters.kp,
            parameters.ki,
            parameters.kd,
            parameters.integral_limit,
            parameters.update_freq,
            parameters.tolerance,
            parameters.enable_target_limits,
            parameters.max_target,
            parameters.min_target,
            parameters.enable_output_limits,
            parameters.max_output,
            parameters.min_output,
            parameters.change_limit,
        )
    }

    /// Builds a controller at rest with target zero. An update frequency of
    /// zero is refused.
    pub fn new(
        kp: i64,
        ki: i64,
        kd: i64,
        integral_limit: i64,
        update_freq: i64,
        tolerance: i64,
        enable_target_limits: bool,
        max_target: i64,
        min_target: i64,
        enable_output_limits: bool,
        max_output: i64,
        min_output: i64,
        change_limit: i64,
    ) -> (r: Result<Self, ConfigError>)
        ensures
            update_freq == 0 ==> r == Err::<Self, ConfigError>(ConfigError::ZeroUpdateFrequency),
            update_freq != 0 ==> r == Ok::<Self, ConfigError>(
                Self::fresh(
                    (PIDParameters {
                        kp,
                        ki,
                        kd,
                        integral_limit,
                        update_freq,
                        tolerance,
                        enable_target_limits,
                        max_target,
                        min_target,
                        enable_output_limits,
                        max_output,
                        min_output,
                        change_limit,
                    }),
                ),
            ),
            r is Ok ==> r->Ok_0.wf(),
    {
        if update_freq == 0 {
            return Err(ConfigError::ZeroUpdateFrequency);
        }
        Ok(
            Self {
                target: 0,
                kp,
                ki,
                kd,
                integral_limit,
                enable_target_limits,
                max_target,
                min_target,
                enable_output_limits,
                max_output,
                min_output,
                change_limit,
                prev_error: 0,
                integral: 0,
                prev_output: 0,
                accumulated_time: 0,
                update_freq,
                tolerance,
            },
        )
    }

    /// Turns the output limits on, with these bounds.
    pub fn set_output_limits(&mut self, min_output: i64, max_output: i64)
        ensures
            *final(self) == (PIDController {
                enable_output_limits: true,
                min_output,
                max_output,
                ..*old(self)
            }),
    {
        self.enable_output_limits = true;
        self.min_output = min_output;
        self.max_output = max_output;
    }

    /// Turns the output limits off.
    pub fn disable_output_limits(&mut self)
        ensures
            *final(self) == (PIDController { enable_output_limits: false, ..*old(self) }),
    {
        self.enable_output_limits = false;
    }

    /// Turns the target limits on, with these bounds.
    pub fn set_target_limits(&mut self, min_target: i64, max_target: i64)
        ensures
            *final(self) == (PIDController {
                enable_target_limits: true,
                min_target,
                max_target,
                ..*old(self)
            }),
    {
        self.enable_target_limits = true;
        self.min_target = min_target;
        self.max_target = max_target;
    }

    /// Turns the target limits off.
    pub fn disable_target_limits(&mut self)
        ensures
            *final(self) == (PIDController { enable_target_limits: false, ..*old(self) }),
    {
        self.enable_target_limits = false;
    }

    /// Limits the output's rate of change; zero means no limit.
    pub fn set_change_limit(&mut self, change_limit: i64)
        ensures
            *final(self) == (PIDController { change_limit, ..*old(self) }),
    {
        self.change_limit = change_limit;
    }

    /// Lifts the limit on the output's rate of change.
    pub fn disable_change_limit(&mut self)
        ensures
            *final(self) == (PIDController { change_limit: 0, ..*old(self) }),
    {
        self.change_limit = 0;
    }

    /// Replaces the three gains.
    pub fn set_parameters(&mut self, kp: i64, ki: i64, kd: i64)
        ensures
            *final(self) == (PIDController { kp, ki, kd, ..*old(self) }),
    {
        self.kp = kp;
        self.ki = ki;
        self.kd = kd;
    }

    /// Limits the running integral to `±integral_limit`; zero means no limit.
    pub fn set_integral_limit(&mut self, integral_limit: i64)
        ensures
            *final(self) == (PIDController { integral_limit, ..*old(self) }),
    {
        self.integral_limit = integral_limit;
    }

    /// Replaces the limit on the running integral; with zero the limit is
    /// lifted.
    pub fn disable_integral_limit(&mut self, integral_limit: i64)
        ensures
            *final(self) == (PIDController { integral_limit, ..*old(self) }),
    {
        self.integral_limit = integral_limit;
    }

    /// Stores a new target. With target limits on, a target outside them is
    /// replaced by the bound it crossed, and the answer is `false`.
    pub fn set_target(&mut self, target: i64) -> (stored_as_asked: bool)
        ensures
            *final(self) == (PIDController {
                target: old(self).admitted_target(target) as i64,
                ..*old(self)
            }),
            stored_as_asked == old(self).admits(target),
            stored_as_asked ==> final(self).target == target,
            old(self).enable_target_limits && target < old(self).min_target ==> !stored_as_asked
                && final(self).target == old(self).min_target,
            old(self).enable_target_limits && old(self).min_target <= target && target > old(
                self,
            ).max_target ==> !stored_as_asked && final(self).target == old(self).max_target,
    {
        if self.enable_target_limits {
            if target < self.min_target {
                self.target = self.min_target;
                return false;
            } else if target > self.max_target {
                self.target = self.max_target;
                return false;
            }
        }
        self.target = target;
        true
    }

    /// Whether `current_value` is closer to the target than the tolerance.
    pub fn has_reached_target(&self, current_value: i64) -> (r: bool)
        ensures
            r == self.reached(current_value),
    {
        self.tolerance > 0 && distance(self.target, current_value) < self.tolerance as u128
    }

    /// Takes a measurement and the time since the last call. Until the time
    /// that has gathered reaches the controller's period, the last output is
    /// returned again and nothing but the gathered time changes. Otherwise the
    /// controller makes one step and returns its output.
    pub fn update(&mut self, current_value: i64, delta_time: i64) -> (output: i64)
        requires
            old(self).wf(),
        ensures
            *final(self) == old(self).after_update(current_value, delta_time),
            output == final(self).prev_output,
            !old(self).due(delta_time) ==> output == old(self).prev_output,
            old(self).due(delta_time) ==> output == old(self).output(current_value, delta_time),
            final(self).wf(),
    {
        reveal(PIDController::after_update);
        self.accumulated_time = plus(self.accumulated_time, delta_time);
        if self.accumulated_time < over(SCALE, self.update_freq) {
            return self.prev_output;
        }
        self.accumulated_time = 0;

        let error: i64 = minus(self.target, current_value);
        let proportional: i64 = times(self.kp, error);

        self.integral = plus(self.integral, times(error, delta_time));
        if self.integral_limit != 0 {
            let floor: i64 = negate(self.integral_limit);
            if self.integral > self.integral_limit {
                self.integral = self.integral_limit;
            } else if self.integral < floor {
                self.integral = floor;
            }
        }
        let integral: i64 = times(self.ki, self.integral);

        let slope: i64 = if delta_time > 0 {
            over(minus(error, self.prev_error), delta_time)
        } else {
            0
        };
        let derivative: i64 = times(self.kd, slope);
        self.prev_error = error;

        let mut output: i64 = plus(plus(proportional, integral), derivative);
        if self.enable_output_limits {
            output = hold(output, self.min_output, self.max_output);
        }
        if self.change_limit != 0 {
            let step: i64 = times(self.change_limit, delta_time);
            let reach: i64 = if step < 0 {
                negate(step)
            } else {
                step
            };
            if distance(output, current_value) > reach as u128 {
                if output > current_value {
                    output = plus(current_value, reach);
                } else {
                    output = minus(current_value, reach);
                }
            }
        }
        self.prev_output = output;
        output
    }
}

/// A value that lies exactly one tolerance away from the target, on either
/// side, has not reached it.
pub proof fn lemma_tolerance_is_exclusive(pid: PIDController, value: i64)
    requires
        value == pid.target + pid.tolerance || value == pid.target - pid.tolerance,
    ensures
        !pid.reached(value),
{
}

/// A call of `update` that comes before the gathered time reaches the period
/// returns the previous output and leaves gains, target, integral and error
/// as they were.
pub proof fn lemma_early_update_repeats_output(
    pid: PIDController,
    current_value: i64,
    delta_time: i64,
)
    requires
        sum(pid.accumulated_time as int, delta_time as int) < pid.period(),
    ensures
        pid.after_update(current_value, delta_time).prev_output == pid.prev_output,
        pid.after_update(current_value, delta_time) == (PIDController {
            accumulated_time: pid.after_update(current_value, delta_time).accumulated_time,
            ..pid
        }),
{
    reveal(PIDController::after_update);
}

/// With the output limits on and in order, and no limit on the rate of
/// change, every output lies within the limits.
pub proof fn lemma_output_within_limits(pid: PIDController, current_value: i64, delta_time: i64)
    requires
        pid.enable_output_limits,
        pid.min_output <= pid.max_output,
        pid.change_limit == 0,
    ensures
        pid.min_output <= pid.output(current_value, delta_time) <= pid.max_output,
{
}

/// Under the same conditions a controller whose last output lies within the
/// limits keeps it there through every call of `update`, and nothing but
/// its state changes.
pub proof fn lemma_update_keeps_output_within_limits(
    pid: PIDController,
    current_value: i64,
    delta_time: i64,
)
    requires
        pid.enable_output_limits,
        pid.min_output <= pid.max_output,
        pid.change_limit == 0,
        pid.min_output <= pid.prev_output <= pid.max_output,
    ensures
        pid.min_output <= pid.after_update(current_value, delta_time).prev_output
            <= pid.max_output,
        pid.after_update(current_value, delta_time).enable_output_limits,
        pid.after_update(current_value, delta_time).change_limit == 0,
        pid.after_update(current_value, delta_time).min_output == pid.min_output,
        pid.after_update(current_value, delta_time).max_output == pid.max_output,
{
    reveal(PIDController::after_update);
    lemma_output_within_limits(pid, current_value, delta_time);
}

} // verus!
