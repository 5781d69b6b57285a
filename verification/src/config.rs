//! Runtime configuration of the idle-simulation loop, and its validation.

use vstd::prelude::*;

use crate::models::{InitPoint, WorkingArea};

verus! {

/// Default polling interval, in seconds.
pub fn default_stayawake_interval() -> (secs: u64)
    ensures
        secs == 60,
{
    60
}

/// Default smallest jump magnitude, in pixels.
pub fn default_jump_by_pixel_min() -> (px: usize)
    ensures
        px == 100,
{
    100
}

/// Default largest jump magnitude, in pixels.
pub fn default_jump_by_pixel_max() -> (px: usize)
    ensures
        px == 150,
{
    150
}

/// Default origin of the working rectangle.
pub fn default_init_point() -> (p: InitPoint)
    ensures
        p == (InitPoint { x: 0, y: 0 }),
{
    InitPoint { x: 0, y: 0 }
}

/// Default extent of the working rectangle.
pub fn default_working_area() -> (a: WorkingArea)
    ensures
        a == (WorkingArea { width: 1024, height: 768 }),
{
    WorkingArea { width: 1024, height: 768 }
}

/// Why a configuration was rejected.
#[derive(Clone, Copy, Debug)]
pub enum ConfigError {
    InvalidProperty { property: &'static str, message: &'static str },
}

/// Settings of the idle-simulation loop: how often to poll, how far a
/// synthetic jump may go, and the rectangle it must stay inside.
#[derive(Clone, Copy, Debug)]
pub struct Config {
    /// Polling interval, in seconds.
    pub stayawake_interval: u64,
    /// Smallest jump magnitude, in pixels.
    pub jump_by_pixel_min: usize,
    /// Largest jump magnitude, in pixels.
    pub jump_by_pixel_max: usize,
    /// Origin of the working rectangle.
    pub init_point: InitPoint,
    /// Extent of the working rectangle.
    pub working_area: WorkingArea,
}

impl Config {
    /// The invariant that `validate` checks: positive jump range and
    /// rectangle, ordered jump bounds, and a rectangle strictly larger than
    /// the largest jump in both dimensions.
    pub open spec fn valid(&self) -> bool {
        &&& self.jump_by_pixel_min > 0
        &&& self.jump_by_pixel_max > 0
        &&& self.working_area.width > 0
        &&& self.working_area.height > 0
        &&& self.jump_by_pixel_min <= self.jump_by_pixel_max
        &&& self.working_area.width > self.jump_by_pixel_max
        &&& self.working_area.height > self.jump_by_pixel_max
    }

    /// Checks the configuration invariant, reporting the first broken
    /// property in a fixed order.
    pub fn validate(&self) -> (r: Result<(), ConfigError>)
        ensures
            (r is Ok) == self.valid(),
            self.jump_by_pixel_min == 0 ==> (r matches Err(
                ConfigError::InvalidProperty { property, message },
            ) && property@ == "jump_by_pixel_min"@ && message@
                == "jump_by_pixel_min cannot be equal to zero"@),
            self.jump_by_pixel_min > 0 && self.jump_by_pixel_max == 0 ==> (r matches Err(
                ConfigError::InvalidProperty { property, message },
            ) && property@ == "jump_by_pixel_max"@ && message@
                == "jump_by_pixel_max cannot be equal to zero"@),
            self.jump_by_pixel_min > 0 && self.jump_by_pixel_max > 0 && (self.working_area.width
                == 0 || self.working_area.height == 0) ==> (r matches Err(
                ConfigError::InvalidProperty { property, message },
            ) && property@ == "working_area"@ && message@
                == "working_area height or/and width cannot be equal to zero"@),
            self.jump_by_pixel_min > 0 && self.jump_by_pixel_max > 0 && self.working_area.width > 0
                && self.working_area.height > 0 && self.jump_by_pixel_min
                > self.jump_by_pixel_max ==> (r matches Err(
                ConfigError::InvalidProperty { property, message },
            ) && property@ == "jump_by_pixel_min"@ && message@
                == "jump_by_pixel_min cannot be bigger than jump_by_pixel_max"@),
            self.jump_by_pixel_min > 0 && self.jump_by_pixel_max > 0 && self.working_area.width > 0
                && self.working_area.height > 0 && self.jump_by_pixel_min <= self.jump_by_pixel_max
                && (self.working_area.width <= self.jump_by_pixel_max || self.working_area.height
                <= self.jump_by_pixel_max) ==> (r matches Err(
                ConfigError::InvalidProperty { property, message },
            ) && property@ == "working_area"@ && message@
                == "working_area cannot be equal or smaller than jump_by_pixel_max"@),
    {
        if self.jump_by_pixel_min == 0 {
            return Err(
                ConfigError::InvalidProperty {
                    property: "jump_by_pixel_min",
                    message: "jump_by_pixel_min cannot be equal to zero",
                },
            );
        }
        if self.jump_by_pixel_max == 0 {
            return Err(
                ConfigError::InvalidProperty {
                    property: "jump_by_pixel_max",
                    message: "jump_by_pixel_max cannot be equal to zero",
                },
            );
        }
        if self.working_area.width == 0 || self.working_area.height == 0 {
            return Err(
                ConfigError::InvalidProperty {
                    property: "working_area",
                    message: "working_area height or/and width cannot be equal to zero",
                },
            );
        }
        if self.jump_by_pixel_min > self.jump_by_pixel_max {
            return Err(
                ConfigError::InvalidProperty {
                    property: "jump_by_pixel_min",
                    message: "jump_by_pixel_min cannot be bigger than jump_by_pixel_max",
                },
            );
        }
        if self.working_area.width <= self.jump_by_pixel_max || self.working_area.height
            <= self.jump_by_pixel_max {
            return Err(
                ConfigError::InvalidProperty {
                    property: "working_area",
                    message: "working_area cannot be equal or smaller than jump_by_pixel_max",
                },
            );
        }
        Ok(())
    }
}

} // verus!
