//! The parameters of a fall and their validation.

use vstd::prelude::*;

verus! {

/// The parameters of one fall. They do not change while it runs.
#[derive(Clone, Copy, Debug, PartialEq, Eq, Structural)]
pub struct SimulationConfig {
    /// The altitude above the surface from which the object is dropped, in
    /// micrometres; negative for a depth below the surface.
    pub initial_distance: i64,
    /// The side of the cube that falls, in micrometres.
    pub width: i64,
    /// The mass of the object, in grams.
    pub mass: i64,
    /// The time step of the integration, in microseconds.
    pub time_step: i64,
    /// Whether the fall lasts nine days, whatever the altitude.
    pub tartarus_mode: bool,
}

/// What is wrong with a configuration.
#[derive(Clone, Copy, Debug, PartialEq, Eq, Structural)]
pub enum ConfigurationError {
    /// The mass is zero or negative.
    NonPositiveMass,
    /// The time step is zero or negative.
    NonPositiveTimeStep,
    /// The width is negative.
    NegativeWidth,
}

impl SimulationConfig {
    /// A fall can run on this configuration: the mass and the time step are
    /// positive and the width is not negative.
    pub open spec fn valid(&self) -> bool {
        &&& self.mass > 0
        &&& self.time_step > 0
        &&& self.width >= 0
    }

    /// The first fault of the configuration, if it has one: the mass is
    /// looked at first, then the time step, then the width.
    pub open spec fn fault(&self) -> Option<ConfigurationError> {
        if self.mass <= 0 {
            Some(ConfigurationError::NonPositiveMass)
        } else if self.time_step <= 0 {
            Some(ConfigurationError::NonPositiveTimeStep)
        } else if self.width < 0 {
            Some(ConfigurationError::NegativeWidth)
        } else {
            None
        }
    }

    /// Accepts the configuration or names its first fault.
    pub fn validate(&self) -> (checked: Result<(), ConfigurationError>)
        ensures
            checked.is_ok() <==> self.valid(),
            checked == match self.fault() {
                Some(fault) => Err::<(), ConfigurationError>(fault),
                None => Ok::<(), ConfigurationError>(()),
            },
    {
        if self.mass <= 0 {
            Err(ConfigurationError::NonPositiveMass)
        } else if self.time_step <= 0 {
            Err(ConfigurationError::NonPositiveTimeStep)
        } else if self.width < 0 {
            Err(ConfigurationError::NegativeWidth)
        } else {
            Ok(())
        }
    }
}

} // verus!
