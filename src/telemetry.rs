use vstd::prelude::*;
use crate::model::{CarState, CarreraEvent, FLEET_SIZE, initial_car};
use crate::protocol::{decode_line, decode_spec, strip_spec, strip_terminator};

verus! {

/// Command that reports the track lights; its data byte is passed on as is.
pub const CMD_LIGHTS: u8 = 16;
/// Command that reports a car's fuel level.
pub const CMD_FUEL: u8 = 4;
/// Command that reports a car entering (data 1) or leaving (data 0) the pit lane.
pub const CMD_PIT: u8 = 5;
/// The two commands that report a completed lap.
pub const CMD_LAP_A: u8 = 8;
pub const CMD_LAP_B: u8 = 9;
/// Command that resets the whole track.
pub const CMD_RESET: u8 = 19;

/// Time from `prev` to `now`, or zero when `now` is not later.
pub open spec fn elapsed_since(prev: Option<u64>, now: u64) -> u64 {
    match prev {
        Some(p) => if now >= p { (now - p) as u64 } else { 0 },
        None => 0,
    }
}

pub open spec fn without_lap(c: CarState) -> CarState {
    CarState { last_lap: None, ..c }
}

/// What one command does to the fleet, and the event it emits, if any.
pub open spec fn apply_spec(
    cars: Seq<CarState>,
    command: u8,
    data: u8,
    id: u8,
    now: u64,
) -> (Seq<CarState>, Option<CarreraEvent>) {
    let car = cars[id as int];
    if command == CMD_LIGHTS {
        (cars, Some(CarreraEvent::LightUpdate(data)))
    } else if command == CMD_FUEL {
        if car.fuel_level != data {
            let c = CarState { fuel_level: data, ..car };
            (cars.update(id as int, c), Some(CarreraEvent::CarUpdate(id, c)))
        } else {
            (cars, None)
        }
    } else if command == CMD_PIT {
        if (data == 1 && !car.in_pit) || (data == 0 && car.in_pit) {
            let c = CarState { in_pit: data == 1, ..car };
            (cars.update(id as int, c), Some(CarreraEvent::CarUpdate(id, c)))
        } else {
            (cars, None)
        }
    } else if command == CMD_LAP_A || command == CMD_LAP_B {
        let c = CarState { last_lap: Some(now), ..car };
        (cars.update(id as int, c), Some(CarreraEvent::NewLap(id, elapsed_since(car.last_lap, now))))
    } else if command == CMD_RESET {
        (cars.map_values(|c: CarState| without_lap(c)), Some(CarreraEvent::Reset))
    } else {
        (cars, None)
    }
}

/// What a speed report does to the fleet, and the event it emits, if any.
pub open spec fn speed_spec(cars: Seq<CarState>, id: u8, speed: u8) -> (Seq<CarState>, Option<CarreraEvent>) {
    let car = cars[id as int];
    if car.speed != speed {
        (cars.update(id as int, CarState { speed, ..car }), Some(CarreraEvent::ControllerUpdate(id, speed)))
    } else {
        (cars, None)
    }
}

pub open spec fn opt_seq(e: Option<CarreraEvent>) -> Seq<CarreraEvent> {
    match e {
        Some(e) => seq![e],
        None => Seq::empty(),
    }
}

/// What one record read off the device does to the fleet, and the events it
/// emits in order: first that of the program-data-word, then that of the
/// controller-word.
pub open spec fn record_spec(cars: Seq<CarState>, record: Seq<u8>, now: u64) -> (Seq<CarState>, Seq<CarreraEvent>) {
    let d = decode_spec(strip_spec(record));
    let first = match d.program {
        Some(p) => apply_spec(cars, p.command, p.data, p.controller, now),
        None => (cars, None),
    };
    let second = match d.controller {
        Some(w) => speed_spec(first.0, w.car_id, w.speed),
        None => (first.0, None),
    };
    (second.0, opt_seq(first.1) + opt_seq(second.1))
}

/// The state of all cars, owned by the one task that reads the track.
pub struct Telemetry {
    cars: Vec<CarState>,
}

impl View for Telemetry {
    type V = Seq<CarState>;

    closed spec fn view(&self) -> Seq<CarState> {
        self.cars@
    }
}

impl Telemetry {
    /// Holds one state per car.
    pub open spec fn wf(&self) -> bool {
        self@.len() == FLEET_SIZE
    }

    /// A fleet in which every car is in its initial state.
    pub fn new() -> (r: Telemetry)
        ensures
            r.wf(),
            forall|i: int| 0 <= i < FLEET_SIZE ==> #[trigger] r@[i] == initial_car(),
    {
        let mut cars: Vec<CarState> = Vec::new();
        let mut i: usize = 0;
        while i < FLEET_SIZE
            invariant
                i <= FLEET_SIZE,
                cars@.len() == i,
                forall|j: int| 0 <= j < i ==> #[trigger] cars@[j] == initial_car(),
            decreases FLEET_SIZE - i,
        {
            cars.push(CarState::default());
            i += 1;
        }
        Telemetry { cars }
    }

    /// A copy of one car's state.
    pub fn car(&self, id: usize) -> (r: CarState)
        requires
            self.wf(),
            id < FLEET_SIZE,
        ensures
            r == self@[id as int],
    {
        self.cars[id]
    }

    /// A copy of every car's state, by car id.
    pub fn snapshot(&self) -> (r: Vec<CarState>)
        ensures
            r@ == self@,
    {
        self.cars.clone()
    }

    /// Applies one command for car `controller` at time `now` and returns the
    /// event it emits, if any.
    pub fn apply(&mut self, command: u8, data: u8, controller: u8, now: u64) -> (r: Option<CarreraEvent>)
        requires
            old(self).wf(),
            (controller as usize) < FLEET_SIZE,
        ensures
            final(self).wf(),
            (final(self)@, r) == apply_spec(old(self)@, command, data, controller, now),
    {
        let id = controller as usize;
        let mut car = self.cars[id];
        if command == CMD_LIGHTS {
            Some(CarreraEvent::LightUpdate(data))
        } else if command == CMD_FUEL {
            if car.fuel_level != data {
                car.fuel_level = data;
                self.cars.set(id, car);
                Some(CarreraEvent::CarUpdate(controller, car))
            } else {
                None
            }
        } else if command == CMD_PIT {
            if (data == 1 && !car.in_pit) || (data == 0 && car.in_pit) {
                car.in_pit = data == 1;
                self.cars.set(id, car);
                Some(CarreraEvent::CarUpdate(controller, car))
            } else {
                None
            }
        } else if command == CMD_LAP_A || command == CMD_LAP_B {
            let elapsed: u64 = match car.last_lap {
                Some(prev) => if now >= prev { now - prev } else { 0 },
                None => 0,
            };
            car.last_lap = Some(now);
            self.cars.set(id, car);
            Some(CarreraEvent::NewLap(controller, elapsed))
        } else if command == CMD_RESET {
            self.clear_laps();
            Some(CarreraEvent::Reset)
        } else {
            None
        }
    }

    /// Forgets every car's last lap.
    fn clear_laps(&mut self)
        requires
            old(self).wf(),
        ensures
            final(self).wf(),
            final(self)@ == old(self)@.map_values(|c: CarState| without_lap(c)),
    {
        let ghost start = self@;
        let mut i: usize = 0;
        while i < self.cars.len()
            invariant
                i <= self.cars@.len(),
                self.cars@.len() == start.len(),
                forall|j: int| 0 <= j < i ==> #[trigger] self.cars@[j] == without_lap(start[j]),
                forall|j: int| i <= j < start.len() ==> #[trigger] self.cars@[j] == start[j],
            decreases self.cars@.len() - i,
        {
            let mut c = self.cars[i];
            c.last_lap = None;
            self.cars.set(i, c);
            i += 1;
        }
        assert(self@ =~= start.map_values(|c: CarState| without_lap(c)));
    }

    /// Handles one record read off the device (terminator included) at time
    /// `now`: decodes it, applies its well-formed words and returns the events
    /// they emit, in order.
    pub fn process_record(&mut self, record: &[u8], now: u64) -> (r: Vec<CarreraEvent>)
        requires
            old(self).wf(),
        ensures
            final(self).wf(),
            (final(self)@, r@) == record_spec(old(self)@, record@, now),
    {
        let line = strip_terminator(record);
        let d = decode_line(line.as_slice());
        let mut events: Vec<CarreraEvent> = Vec::new();
        let first = match d.program {
            Some(p) => self.apply(p.command, p.data, p.controller, now),
            None => None,
        };
        if let Some(e) = first {
            events.push(e);
        }
        let second = match d.controller {
            Some(w) => self.apply_speed(w.car_id, w.speed),
            None => None,
        };
        if let Some(e) = second {
            events.push(e);
        }
        assert(events@ =~= opt_seq(first) + opt_seq(second));
        events
    }

    /// Records a speed report for car `car_id` and returns the event it emits, if any.
    pub fn apply_speed(&mut self, car_id: u8, speed: u8) -> (r: Option<CarreraEvent>)
        requires
            old(self).wf(),
            (car_id as usize) < FLEET_SIZE,
        ensures
            final(self).wf(),
            (final(self)@, r) == speed_spec(old(self)@, car_id, speed),
    {
        let id = car_id as usize;
        let mut car = self.cars[id];
        if car.speed != speed {
            car.speed = speed;
            self.cars.set(id, car);
            Some(CarreraEvent::ControllerUpdate(car_id, speed))
        } else {
            None
        }
    }
}

} // verus!
