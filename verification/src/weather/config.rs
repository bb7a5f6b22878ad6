use vstd::prelude::*;

verus! {

/// Length of the particle array in the weather storage buffer.
pub const MAX_WEATHER_PARTICLES: usize = 3000;

/// The kind of precipitation around the camera.
#[derive(Clone, Copy, Debug, PartialEq, Eq, Structural)]
pub enum WeatherType {
    /// No precipitation.
    Clear,
    Rain,
    Snow,
}

impl WeatherType {
    /// Particles move only when there is some weather.
    pub fn is_active(&self) -> (r: bool)
        ensures
            r == !(*self is Clear),
    {
        match self {
            WeatherType::Clear => false,
            _ => true,
        }
    }
}

} // verus!
