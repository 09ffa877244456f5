use vstd::prelude::*;

verus! {

/// Number of cars (and controllers) the track knows; car ids run from 0 to 7.
pub const FLEET_SIZE: usize = 8;

/// Live state of one car.
///
/// Times are nanoseconds since the UNIX epoch.
#[derive(Clone, Copy, Debug, PartialEq, Eq)]
pub struct CarState {
    pub fuel_level: u8,
    pub in_pit: bool,
    pub speed: u8,
    pub last_lap: Option<u64>,
}

/// The state every car starts in: full tank, on track, standing still, no lap yet.
pub open spec fn initial_car() -> CarState {
    CarState { fuel_level: 255, in_pit: false, speed: 0, last_lap: None }
}

impl CarState {
    pub fn default() -> (r: CarState)
        ensures
            r == initial_car(),
    {
        CarState { fuel_level: 255, in_pit: false, last_lap: None, speed: 0 }
    }
}

/// A change of track state, as handed to viewers.
///
/// `NewLap` carries the time since the car's previous lap, in nanoseconds
/// (zero when no previous lap is known).
#[derive(Clone, Copy, Debug, PartialEq, Eq)]
pub enum CarreraEvent {
    ControllerUpdate(u8, u8),
    CarUpdate(u8, CarState),
    LightUpdate(u8),
    NewLap(u8, u64),
    Reset,
}

} // verus!
