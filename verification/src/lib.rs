//! Closed-loop motion of elevator cars: a cascade of two PID controllers
//! drives a motor that is described by a table of measured operating points,
//! and a dispatcher hands calls to the nearest idle car.
//!
//! All quantities are saturating fixed-point numbers (see [`fixed`]).
pub mod error;
pub mod fixed;
pub mod pid_controller;
pub mod motor_samples;
pub mod motor_parameters;
pub mod motor;
pub mod elevator;
pub mod elevator_system;
