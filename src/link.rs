use vstd::prelude::*;
use crate::locator::RECONNECT_DELAY_SECS;
use crate::model::{CarreraEvent, FLEET_SIZE, initial_car};
use crate::telemetry::{Telemetry, record_spec};

verus! {

/// What the task that owns the device does next.
#[derive(Clone, Copy, Debug, PartialEq, Eq)]
pub enum LinkAction {
    /// Look for the device now.
    Search,
    /// Wait this many seconds, then look for the device.
    WaitThenSearch(u64),
    /// Read the next record off the open device.
    ReadRecord,
}

/// The connection to the track device and the fleet state it feeds.
pub struct Session {
    pub telemetry: Telemetry,
    /// Whether a device is open.
    pub connected: bool,
    /// Whether car states survive a reconnection; otherwise they start over.
    pub keep_state: bool,
}

impl Session {
    pub open spec fn wf(&self) -> bool {
        self.telemetry.wf()
    }

    /// No device yet, every car in its initial state.
    pub fn new(keep_state: bool) -> (r: Session)
        ensures
            r.wf(),
            !r.connected,
            r.keep_state == keep_state,
            forall|i: int| 0 <= i < FLEET_SIZE ==> #[trigger] r.telemetry@[i] == initial_car(),
    {
        Session { telemetry: Telemetry::new(), connected: false, keep_state }
    }

    /// After a search for the device: read from it when it was found and
    /// opened (starting the cars over unless `keep_state`), else wait and
    /// search again.
    pub fn on_search(&mut self, found: bool) -> (a: LinkAction)
        requires
            old(self).wf(),
        ensures
            final(self).wf(),
            final(self).keep_state == old(self).keep_state,
            final(self).connected == found,
            found ==> a == LinkAction::ReadRecord,
            !found ==> a == LinkAction::WaitThenSearch(RECONNECT_DELAY_SECS),
            (!found || old(self).keep_state) ==> final(self).telemetry@ == old(self).telemetry@,
            (found && !old(self).keep_state) ==> forall|i: int|
                0 <= i < FLEET_SIZE ==> #[trigger] final(self).telemetry@[i] == initial_car(),
    {
        if found {
            if !self.keep_state {
                self.telemetry = Telemetry::new();
            }
            self.connected = true;
            LinkAction::ReadRecord
        } else {
            self.connected = false;
            LinkAction::WaitThenSearch(RECONNECT_DELAY_SECS)
        }
    }

    /// After a record was read at time `now`: the events it emits.
    pub fn on_record(&mut self, record: &[u8], now: u64) -> (r: Vec<CarreraEvent>)
        requires
            old(self).wf(),
        ensures
            final(self).wf(),
            final(self).connected == old(self).connected,
            final(self).keep_state == old(self).keep_state,
            (final(self).telemetry@, r@) == record_spec(old(self).telemetry@, record@, now),
    {
        self.telemetry.process_record(record, now)
    }

    /// After the device's stream failed or closed: look for the device again.
    pub fn on_stream_end(&mut self) -> (a: LinkAction)
        requires
            old(self).wf(),
        ensures
            final(self).wf(),
            !final(self).connected,
            final(self).keep_state == old(self).keep_state,
            final(self).telemetry@ == old(self).telemetry@,
            a == LinkAction::Search,
    {
        self.connected = false;
        LinkAction::Search
    }
}

} // verus!
