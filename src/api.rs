//! The library side of the service: its configuration and the in-memory
//! history that the query interface reads.

use vstd::prelude::*;
use crate::events::{Event, LapDataEvent};

verus! {

/// The telemetry service. It listens for the game's datagrams and serves
/// the decoded events.
#[derive(Clone, Copy, PartialEq, Eq, Debug, Structural)]
pub struct F1TelemetryApi {}

/// How many events the broadcast hub keeps for subscribers that lag.
pub const HUB_CAPACITY: usize = 5000;

impl F1TelemetryApi {
    /// The service.
    pub fn new() -> (r: F1TelemetryApi)
        ensures
            r == (F1TelemetryApi {}),
    {
        F1TelemetryApi {}
    }

    /// The capacity of the service's broadcast hub.
    pub fn hub_capacity(&self) -> (r: usize)
        ensures
            r == HUB_CAPACITY,
            r > 0,
    {
        HUB_CAPACITY
    }
}

/// The session query endpoint.
#[derive(Clone, Copy, PartialEq, Eq, Debug, Structural)]
pub struct SessionApi {}

/// The lap-timing events among `s`, in order.
pub open spec fn lap_events(s: Seq<Event>) -> Seq<LapDataEvent>
    decreases s.len(),
{
    if s.len() == 0 {
        Seq::empty()
    } else {
        let rest = lap_events(s.drop_last());
        match s.last() {
            Event::LapData(d) => rest.push(d),
            _ => rest,
        }
    }
}

/// The events decoded so far, in the order they were decoded.
pub struct EventLog {
    events: Vec<Event>,
}

impl View for EventLog {
    type V = Seq<Event>;

    closed spec fn view(&self) -> Seq<Event> {
        self.events@
    }
}

impl EventLog {
    /// An empty history.
    pub fn new() -> (r: EventLog)
        ensures
            r@ == Seq::<Event>::empty(),
    {
        EventLog { events: Vec::new() }
    }

    /// Adds an event after those already held.
    pub fn record(&mut self, event: Event)
        ensures
            final(self)@ == old(self)@.push(event),
    {
        self.events.push(event);
    }

    /// How many events are held.
    pub fn len(&self) -> (r: usize)
        ensures
            r == self@.len(),
    {
        self.events.len()
    }

    /// A snapshot of the lap-timing events held, in order.
    pub fn lap_data(&self) -> (r: Vec<LapDataEvent>)
        ensures
            r@ == lap_events(self@),
    {
        let mut r: Vec<LapDataEvent> = Vec::new();
        let mut i: usize = 0;
        while i < self.events.len()
            invariant
                i <= self.events@.len(),
                r@ == lap_events(self.events@.subrange(0, i as int)),
            decreases self.events@.len() - i,
        {
            let ghost before = self.events@.subrange(0, i as int);
            assert(self.events@.subrange(0, i + 1).drop_last() =~= before);
            match self.events[i] {
                Event::LapData(d) => r.push(d),
                _ => {},
            }
            i = i + 1;
        }
        assert(self.events@.subrange(0, i as int) =~= self.events@);
        r
    }
}

} // verus!
