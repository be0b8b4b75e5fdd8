//! What can go wrong when a model is built or driven.
use vstd::prelude::*;

verus! {

/// A model that must not be started.
#[derive(Clone, Copy, Debug, PartialEq, Eq, Structural)]
pub enum ConfigError {
    /// A controller was asked to run at zero updates per second.
    ZeroUpdateFrequency,
    /// The sample table has no row.
    NoSamples,
    /// The sample table is not sorted by current.
    UnsortedCurrent,
    /// Two rows of the sample table differ in voltage.
    VoltageVaries,
    /// Two rows of the sample table differ in torque.
    TorqueVaries,
    /// The gearbox ratio is zero.
    ZeroGearboxRatio,
    /// The sample table does not cover a current of zero.
    NoRestPoint,
}

impl ConfigError {
    /// The fault in words.
    pub open spec fn text(self) -> Seq<char> {
        match self {
            ConfigError::ZeroUpdateFrequency => "The update frequency of a controller must not be zero"@,
            ConfigError::NoSamples => "No motor samples found"@,
            ConfigError::UnsortedCurrent => "Motor samples should be sorted by current"@,
            ConfigError::VoltageVaries => "Voltage property of the motor should be the same. Check the data file"@,
            ConfigError::TorqueVaries => "TnM property of the motor should be the same. Check the data file"@,
            ConfigError::ZeroGearboxRatio => "The gearbox ratio of the motor must not be zero"@,
            ConfigError::NoRestPoint => "Motor samples should cover a current of zero"@,
        }
    }

    /// The fault in words.
    pub fn message(&self) -> (words: &'static str)
        ensures
            words@ == self.text(),
    {
        match self {
            ConfigError::ZeroUpdateFrequency => "The update frequency of a controller must not be zero",
            ConfigError::NoSamples => "No motor samples found",
            ConfigError::UnsortedCurrent => "Motor samples should be sorted by current",
            ConfigError::VoltageVaries => "Voltage property of the motor should be the same. Check the data file",
            ConfigError::TorqueVaries => "TnM property of the motor should be the same. Check the data file",
            ConfigError::ZeroGearboxRatio => "The gearbox ratio of the motor must not be zero",
            ConfigError::NoRestPoint => "Motor samples should cover a current of zero",
        }
    }
}

/// A commanded current that lies outside what the sample table covers.
#[derive(Clone, Copy, Debug, PartialEq, Eq, Structural)]
pub struct CurrentLimitExceeded {
    /// The current that was asked for.
    pub current: i64,
}

impl CurrentLimitExceeded {
    /// The fault in words.
    pub open spec fn text() -> Seq<char> {
        "Motor current limit exceeded"@
    }

    /// The fault in words.
    pub fn message(&self) -> (words: &'static str)
        ensures
            words@ == Self::text(),
    {
        "Motor current limit exceeded"
    }
}

} // verus!
