//! The weather of a map.
use vstd::prelude::*;

verus! {

/// Weather type that can be active on a map.
#[derive(Copy, Clone, Debug, PartialEq, Eq, Structural)]
pub enum WeatherType {
    /// No weather effect.
    Clear,
    Rain,
    Snow,
    Fog,
}

/// The most raindrops on screen at once.
pub const MAX_RAIN_PARTICLES: usize = 300;
/// The most snowflakes on screen at once.
pub const MAX_SNOW_PARTICLES: usize = 200;

impl WeatherType {
    /// The most particles that this weather has on screen at once: fog and
    /// clear weather have none.
    pub fn particle_limit(self) -> (limit: usize)
        ensures
            limit == match self {
                WeatherType::Rain => MAX_RAIN_PARTICLES,
                WeatherType::Snow => MAX_SNOW_PARTICLES,
                _ => 0,
            },
    {
        match self {
            WeatherType::Rain => MAX_RAIN_PARTICLES,
            WeatherType::Snow => MAX_SNOW_PARTICLES,
            _ => 0,
        }
    }

    /// Whether changing from this weather to `next` starts the effect
    /// over: only a change to a different weather does.
    pub fn restarts_for(self, next: WeatherType) -> (restarts: bool)
        ensures
            restarts == (self != next),
    {
        self != next
    }
}

} // verus!
