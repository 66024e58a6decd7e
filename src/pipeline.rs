use vstd::prelude::*;

use crate::cache::{accepts, step_spec, ActionView, Phase, Resolution, StoreAction, StoreEvent};
use crate::forecast::{answers, weather_outcome, WeatherDisplay};
use crate::geo::{LatLong, WeatherError};

verus! {

/// Where a weather request stands: its city is being resolved, its forecast
/// is being fetched for the resolved coordinate, or it has been answered.
#[derive(Clone, Copy, Debug, PartialEq, Eq, Structural)]
pub enum RequestPhase {
    Resolving,
    Fetching(LatLong),
    Answered,
}

/// What the outside world reports back to a weather request.
pub enum RequestEvent {
    /// An answer for the resolution of the city.
    Store(StoreEvent),
    /// The forecast service answered: the timestamp labels and the formatted
    /// temperatures, or `Upstream`.
    Fetched(Result<(Vec<String>, Vec<String>), WeatherError>),
}

/// What a weather request asks the outside world to do next.
pub enum RequestAction {
    /// A step of the resolution of the city.
    Store(StoreAction),
    /// Fetch the hourly forecast at this coordinate.
    FetchForecast(LatLong),
    /// The request is over: send this answer.
    Respond(Result<WeatherDisplay, WeatherError>),
}

/// One weather request: the city is resolved first, then its forecast is
/// fetched, then the forecast is paired up. No step is retried; the first
/// error ends the request.
pub struct WeatherRequest {
    pub city: String,
    pub resolution: Resolution,
    pub phase: RequestPhase,
}

impl WeatherRequest {
    /// The resolution belongs to the request's city, and it is under way
    /// exactly while the request is resolving.
    pub open spec fn wf(&self) -> bool {
        &&& self.resolution.name@ == self.city@
        &&& (self.phase == RequestPhase::Resolving) == (self.resolution.phase != Phase::Done)
    }

    /// The events that the request waits for now.
    pub open spec fn accepts_event(&self, event: RequestEvent) -> bool {
        match (self.phase, event) {
            (RequestPhase::Resolving, RequestEvent::Store(e)) => accepts(self.resolution.phase, e),
            (RequestPhase::Fetching(_), RequestEvent::Fetched(_)) => true,
            _ => false,
        }
    }

    /// Starts a request for `city` by asking the store for it.
    pub fn new(city: String) -> (r: (WeatherRequest, RequestAction))
        ensures
            r.0.wf(),
            r.0.city@ == city@,
            r.0.phase == RequestPhase::Resolving,
            r.0.resolution.phase == Phase::Lookup,
            (r.1 matches RequestAction::Store(a) && a@ == ActionView::Lookup(city@)),
    {
        let (resolution, first) = Resolution::new(city.clone());
        (WeatherRequest { city, resolution, phase: RequestPhase::Resolving }, RequestAction::Store(first))
    }

    /// Whether the request waits for `event` now.
    pub fn expects(&self, event: &RequestEvent) -> (r: bool)
        ensures
            r == self.accepts_event(*event),
    {
        match (self.phase, event) {
            (RequestPhase::Resolving, RequestEvent::Store(e)) => self.resolution.expects(e),
            (RequestPhase::Fetching(_), RequestEvent::Fetched(_)) => true,
            _ => false,
        }
    }

    /// Takes the answer to the last action and says what to do next. A
    /// resolved coordinate leads to the forecast fetch, a failed resolution
    /// to its error, and a fetched forecast to the answer.
    pub fn step(&mut self, event: RequestEvent) -> (a: RequestAction)
        requires
            old(self).wf(),
            old(self).accepts_event(event),
        ensures
            final(self).wf(),
            final(self).city == old(self).city,
            match event {
                RequestEvent::Store(e) => {
                    let (p, v) = step_spec(old(self).city@, old(self).resolution.phase, e);
                    &&& final(self).resolution.phase == p
                    &&& match v {
                        ActionView::Finish(Ok(c)) => final(self).phase == RequestPhase::Fetching(c)
                            && a == RequestAction::FetchForecast(c),
                        ActionView::Finish(Err(x)) => final(self).phase == RequestPhase::Answered
                            && a == RequestAction::Respond(Err(x)),
                        _ => final(self).phase == RequestPhase::Resolving
                            && (a matches RequestAction::Store(s) && s@ == v),
                    }
                },
                RequestEvent::Fetched(f) => {
                    &&& final(self).phase == RequestPhase::Answered
                    &&& (a matches RequestAction::Respond(r) && answers(old(self).city@, f, r))
                },
            },
    {
        match event {
            RequestEvent::Store(e) => {
                let next = self.resolution.step(e);
                match next {
                    StoreAction::Finish(Ok(c)) => {
                        self.phase = RequestPhase::Fetching(c);
                        RequestAction::FetchForecast(c)
                    },
                    StoreAction::Finish(Err(x)) => {
                        self.phase = RequestPhase::Answered;
                        RequestAction::Respond(Err(x))
                    },
                    other => RequestAction::Store(other),
                }
            },
            RequestEvent::Fetched(f) => {
                self.phase = RequestPhase::Answered;
                RequestAction::Respond(weather_outcome(self.city.clone(), f))
            },
        }
    }
}

} // verus!
