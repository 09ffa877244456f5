use vstd::prelude::*;
use crate::feed::{Received, Viewer, ViewerAction, category_spec, viewer_step_spec};
use crate::model::{CarState, CarreraEvent, FLEET_SIZE};
use crate::protocol::{FIELD_SEP, WORD_SEP, decode_spec, parse_u8_spec, split_spec, strip_spec};
use crate::telemetry::{CMD_FUEL, CMD_LAP_A, CMD_LAP_B, CMD_PIT, CMD_RESET, apply_spec, opt_seq, record_spec};

verus! {

/// A fuel report applied twice emits a `CarUpdate` only the first time, and
/// only when the level changed; the second application changes nothing.
pub proof fn lemma_fuel_report_twice(cars: Seq<CarState>, id: u8, data: u8, t1: u64, t2: u64)
    requires
        cars.len() == FLEET_SIZE,
        (id as int) < FLEET_SIZE,
    ensures
        ({
            let (c1, e1) = apply_spec(cars, CMD_FUEL, data, id, t1);
            let (c2, e2) = apply_spec(c1, CMD_FUEL, data, id, t2);
            &&& c1[id as int].fuel_level == data
            &&& (cars[id as int].fuel_level != data ==> e1 == Some(CarreraEvent::CarUpdate(id, c1[id as int])))
            &&& (cars[id as int].fuel_level == data ==> e1 is None)
            &&& e2 is None
            &&& c2 == c1
        }),
{
}

/// Entering the pit while on track emits one `CarUpdate` with the car in the
/// pit; entering again emits nothing.
pub proof fn lemma_pit_entry_twice(cars: Seq<CarState>, id: u8, t1: u64, t2: u64)
    requires
        cars.len() == FLEET_SIZE,
        (id as int) < FLEET_SIZE,
        !cars[id as int].in_pit,
    ensures
        ({
            let (c1, e1) = apply_spec(cars, CMD_PIT, 1, id, t1);
            let (c2, e2) = apply_spec(c1, CMD_PIT, 1, id, t2);
            &&& c1[id as int].in_pit
            &&& e1 == Some(CarreraEvent::CarUpdate(id, c1[id as int]))
            &&& e2 is None
            &&& c2 == c1
        }),
{
}

/// A car's first lap report gives a lap time of zero; the next one, `d`
/// later, gives `d`.
pub proof fn lemma_lap_times(cars: Seq<CarState>, id: u8, command: u8, t1: u64, d: u64)
    requires
        cars.len() == FLEET_SIZE,
        (id as int) < FLEET_SIZE,
        command == CMD_LAP_A || command == CMD_LAP_B,
        cars[id as int].last_lap is None,
        t1 + d <= u64::MAX,
    ensures
        ({
            let (c1, e1) = apply_spec(cars, command, 0, id, t1);
            let (c2, e2) = apply_spec(c1, command, 0, id, (t1 + d) as u64);
            &&& e1 == Some(CarreraEvent::NewLap(id, 0))
            &&& e2 == Some(CarreraEvent::NewLap(id, d))
            &&& c2[id as int].last_lap == Some((t1 + d) as u64)
        }),
{
}

/// A reset forgets every car's last lap, keeps all else, and emits `Reset`.
pub proof fn lemma_reset_clears_laps(cars: Seq<CarState>, data: u8, id: u8, now: u64)
    requires
        cars.len() == FLEET_SIZE,
        (id as int) < FLEET_SIZE,
    ensures
        ({
            let (c1, e1) = apply_spec(cars, CMD_RESET, data, id, now);
            &&& e1 == Some(CarreraEvent::Reset)
            &&& opt_seq(e1).len() == 1
            &&& c1.len() == FLEET_SIZE
            &&& forall|i: int| 0 <= i < FLEET_SIZE ==> {
                &&& (#[trigger] c1[i]).last_lap is None
                &&& c1[i].fuel_level == cars[i].fuel_level
                &&& c1[i].in_pit == cars[i].in_pit
                &&& c1[i].speed == cars[i].speed
            }
        }),
{
}

/// A record whose only word has a field among its first three that is not a
/// byte is dropped: no event, no change of state.
pub proof fn lemma_malformed_record_dropped(cars: Seq<CarState>, record: Seq<u8>, now: u64, k: int)
    requires
        cars.len() == FLEET_SIZE,
        split_spec(strip_spec(record), WORD_SEP).len() == 1,
        0 <= k < 3,
        k < split_spec(split_spec(strip_spec(record), WORD_SEP)[0], FIELD_SEP).len(),
        parse_u8_spec(split_spec(split_spec(strip_spec(record), WORD_SEP)[0], FIELD_SEP)[k]) is None,
    ensures
        decode_spec(strip_spec(record)).program is None,
        decode_spec(strip_spec(record)).controller is None,
        record_spec(cars, record, now) == (cars, Seq::<CarreraEvent>::empty()),
{
    assert(opt_seq(None) + opt_seq(None) =~= Seq::<CarreraEvent>::empty());
}

/// A viewer that lagged stays subscribed and forwards the next event it
/// receives.
pub proof fn lemma_lag_keeps_viewer(v: Viewer, n: u64, e: CarreraEvent)
    requires
        v.open,
    ensures
        ({
            let (v1, a1) = viewer_step_spec(v, Received::Lagged(n));
            let (v2, a2) = viewer_step_spec(v1, Received::Event(e));
            &&& a1 != ViewerAction::Stop
            &&& v1.open
            &&& a2 == ViewerAction::Forward(category_spec(e), e)
            &&& v2.open
        }),
{
}

} // verus!
