//! The settings of a motor, as a parameter document gives them.
use vstd::prelude::*;
use crate::pid_controller::PIDParameters;

verus! {

/// What a parameter document says of a motor.
#[derive(Debug)]
pub struct MotorParameters {
    /// Settings of the controller that tracks the motor's speed.
    pub pid_parameters: PIDParameters,
    pub gearbox_ratio: i64,
    pub output_shaft_radius: i64,
    /// Where the motor's sample table is kept.
    pub sample_path: String,
    pub soft_rpm_limit: i64,
    pub soft_current_limit: i64,
}

} // verus!
