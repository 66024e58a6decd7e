use vstd::prelude::*;

use crate::geo::{first_candidate, LatLong, WeatherError};

verus! {

/// A row of the city store: a name and the coordinate resolved for it. The
/// store is an append-only log; two rows may carry one name.
pub struct CityRecord {
    pub name: String,
    pub location: LatLong,
}

impl View for CityRecord {
    type V = (Seq<char>, LatLong);

    open spec fn view(&self) -> (Seq<char>, LatLong) {
        (self.name@, self.location)
    }
}

/// A name that the store holds, as the statistics page lists it.
pub struct City {
    pub name: String,
}

/// Where a resolution of one name stands.
#[derive(Clone, Copy, Debug, PartialEq, Eq, Structural)]
pub enum Phase {
    /// The store is asked for a coordinate of the name.
    Lookup,
    /// The store had none; the geocoder is asked.
    Geocode,
    /// The geocoder answered with this coordinate; it is being written.
    Insert(LatLong),
    /// The resolution has finished.
    Done,
}

/// What the outside world reports back to a resolution.
#[derive(Clone, Copy, Debug)]
pub enum StoreEvent {
    /// The store answered the lookup: a coordinate stored for the name, or none.
    Read(Option<LatLong>),
    /// The geocoder answered: a coordinate, `NotFound`, or `Upstream`.
    Geocoded(Result<LatLong, WeatherError>),
    /// The store wrote the new record.
    Written,
    /// The store failed to read or to write.
    StoreFailed,
}

/// What a resolution asks the outside world to do next.
pub enum StoreAction {
    /// Read the coordinate stored under this exact name, if any.
    Lookup(String),
    /// Ask the geocoder for this name.
    Geocode(String),
    /// Append this record to the store.
    Insert(CityRecord),
    /// The resolution is over, with this result.
    Finish(Result<LatLong, WeatherError>),
}

/// A `StoreAction` as plain values.
pub enum ActionView {
    Lookup(Seq<char>),
    Geocode(Seq<char>),
    Insert(Seq<char>, LatLong),
    Finish(Result<LatLong, WeatherError>),
}

impl View for StoreAction {
    type V = ActionView;

    open spec fn view(&self) -> ActionView {
        match self {
            StoreAction::Lookup(n) => ActionView::Lookup(n@),
            StoreAction::Geocode(n) => ActionView::Geocode(n@),
            StoreAction::Insert(r) => ActionView::Insert(r.name@, r.location),
            StoreAction::Finish(res) => ActionView::Finish(*res),
        }
    }
}

/// The events that a resolution waits for in each phase.
pub open spec fn accepts(phase: Phase, event: StoreEvent) -> bool {
    match phase {
        Phase::Lookup => event is Read || event is StoreFailed,
        Phase::Geocode => event is Geocoded,
        Phase::Insert(_) => event is Written || event is StoreFailed,
        Phase::Done => false,
    }
}

/// The cache-aside rule for one name: a stored coordinate is the answer; on a
/// miss the geocoder is asked and its coordinate is written before it is
/// returned; a geocoder error, or a store failure, ends the resolution with
/// that error and writes nothing.
pub open spec fn step_spec(name: Seq<char>, phase: Phase, event: StoreEvent) -> (Phase, ActionView) {
    match (phase, event) {
        (Phase::Lookup, StoreEvent::Read(Some(c))) => (Phase::Done, ActionView::Finish(Ok(c))),
        (Phase::Lookup, StoreEvent::Read(None)) => (Phase::Geocode, ActionView::Geocode(name)),
        (Phase::Geocode, StoreEvent::Geocoded(Ok(c))) => (
            Phase::Insert(c),
            ActionView::Insert(name, c),
        ),
        (Phase::Geocode, StoreEvent::Geocoded(Err(e))) => (Phase::Done, ActionView::Finish(Err(e))),
        (Phase::Insert(c), StoreEvent::Written) => (Phase::Done, ActionView::Finish(Ok(c))),
        _ => (Phase::Done, ActionView::Finish(Err(WeatherError::Upstream))),
    }
}

/// The store after an action: an insert appends its record, and no other
/// action writes.
pub open spec fn store_after(log: Seq<(Seq<char>, LatLong)>, a: ActionView) -> Seq<
    (Seq<char>, LatLong),
> {
    match a {
        ActionView::Insert(n, c) => log.push((n, c)),
        _ => log,
    }
}

/// An answer that the store may give to a lookup of `name`: none exactly
/// when no record carries the name, else the coordinate of one that does.
pub open spec fn lookup_answer(
    log: Seq<(Seq<char>, LatLong)>,
    name: Seq<char>,
    ans: Option<LatLong>,
) -> bool {
    match ans {
        None => forall|i: int| 0 <= i < log.len() ==> #[trigger] log[i].0 != name,
        Some(c) => exists|i: int| 0 <= i < log.len() && #[trigger] log[i] == (name, c),
    }
}

/// The resolution of one city name, driven by the events it is handed.
pub struct Resolution {
    pub name: String,
    pub phase: Phase,
}

impl Resolution {
    /// Starts resolving `name`: the first thing to do is to ask the store.
    pub fn new(name: String) -> (r: (Resolution, StoreAction))
        ensures
            r.0.name@ == name@,
            r.0.phase == Phase::Lookup,
            r.1@ == ActionView::Lookup(name@),
    {
        let asked = name.clone();
        (Resolution { name, phase: Phase::Lookup }, StoreAction::Lookup(asked))
    }

    /// Whether the resolution waits for `event` now.
    pub fn expects(&self, event: &StoreEvent) -> (r: bool)
        ensures
            r == accepts(self.phase, *event),
    {
        match self.phase {
            Phase::Lookup => match event {
                StoreEvent::Read(_) => true,
                StoreEvent::StoreFailed => true,
                _ => false,
            },
            Phase::Geocode => match event {
                StoreEvent::Geocoded(_) => true,
                _ => false,
            },
            Phase::Insert(_) => match event {
                StoreEvent::Written => true,
                StoreEvent::StoreFailed => true,
                _ => false,
            },
            Phase::Done => false,
        }
    }

    /// Takes the answer to the last action and says what to do next.
    pub fn step(&mut self, event: StoreEvent) -> (a: StoreAction)
        requires
            accepts(old(self).phase, event),
        ensures
            final(self).name == old(self).name,
            (final(self).phase, a@) == step_spec(old(self).name@, old(self).phase, event),
    {
        match (self.phase, event) {
            (Phase::Lookup, StoreEvent::Read(Some(c))) => {
                self.phase = Phase::Done;
                StoreAction::Finish(Ok(c))
            },
            (Phase::Lookup, StoreEvent::Read(None)) => {
                self.phase = Phase::Geocode;
                StoreAction::Geocode(self.name.clone())
            },
            (Phase::Geocode, StoreEvent::Geocoded(Ok(c))) => {
                self.phase = Phase::Insert(c);
                StoreAction::Insert(CityRecord { name: self.name.clone(), location: c })
            },
            (Phase::Geocode, StoreEvent::Geocoded(Err(e))) => {
                self.phase = Phase::Done;
                StoreAction::Finish(Err(e))
            },
            (Phase::Insert(c), StoreEvent::Written) => {
                self.phase = Phase::Done;
                StoreAction::Finish(Ok(c))
            },
            _ => {
                self.phase = Phase::Done;
                StoreAction::Finish(Err(WeatherError::Upstream))
            },
        }
    }
}

/// Once a city has been resolved through the geocoder and written, every
/// later resolution of it is answered by the store with that same coordinate
/// and ends without asking the geocoder.
pub proof fn lemma_resolved_city_comes_from_store(
    log: Seq<(Seq<char>, LatLong)>,
    name: Seq<char>,
    c: LatLong,
    ans: Option<LatLong>,
)
    requires
        lookup_answer(log, name, None),
        lookup_answer(store_after(log, ActionView::Insert(name, c)), name, ans),
    ensures
        step_spec(name, Phase::Lookup, StoreEvent::Read(None)) == (
            Phase::Geocode,
            ActionView::Geocode(name),
        ),
        step_spec(name, Phase::Geocode, StoreEvent::Geocoded(Ok(c))) == (
            Phase::Insert(c),
            ActionView::Insert(name, c),
        ),
        step_spec(name, Phase::Insert(c), StoreEvent::Written) == (
            Phase::Done,
            ActionView::Finish(Ok(c)),
        ),
        ans == Some(c),
        step_spec(name, Phase::Lookup, StoreEvent::Read(ans)) == (
            Phase::Done,
            ActionView::Finish(Ok(c)),
        ),
{
    let after = store_after(log, ActionView::Insert(name, c));
    let last = log.len() as int;
    assert(after[last] == (name, c));
    match ans {
        None => {
            assert(after[last].0 != name);
        },
        Some(d) => {
            let i = choose|i: int| 0 <= i < after.len() && #[trigger] after[i] == (name, d);
            if i < last {
                assert(log[i] == after[i]);
                assert(log[i].0 != name);
            }
        },
    }
}

/// A name for which the geocoder has no candidate ends in `NotFound`, and
/// the store is left as it was.
pub proof fn lemma_unknown_city_writes_nothing(
    log: Seq<(Seq<char>, LatLong)>,
    name: Seq<char>,
    results: Seq<LatLong>,
)
    requires
        results.len() == 0,
    ensures
        first_candidate(results) == Err::<LatLong, WeatherError>(WeatherError::NotFound),
        step_spec(name, Phase::Geocode, StoreEvent::Geocoded(first_candidate(results))) == (
            Phase::Done,
            ActionView::Finish(Err(WeatherError::NotFound)),
        ),
        store_after(
            log,
            step_spec(name, Phase::Geocode, StoreEvent::Geocoded(first_candidate(results))).1,
        ) == log,
{
}

/// Two resolutions of one unseen name that run side by side both miss, both
/// ask the geocoder and both write. Whatever order the writes take, both
/// succeed with their own coordinate, both records are kept, and a later
/// lookup of the name finds one of them.
pub proof fn lemma_racing_resolutions_both_succeed(
    log: Seq<(Seq<char>, LatLong)>,
    name: Seq<char>,
    c1: LatLong,
    c2: LatLong,
    ans: Option<LatLong>,
)
    requires
        lookup_answer(log, name, None),
        lookup_answer(
            store_after(store_after(log, ActionView::Insert(name, c1)), ActionView::Insert(name, c2)),
            name,
            ans,
        ),
    ensures
        step_spec(name, Phase::Lookup, StoreEvent::Read(None)).1 == ActionView::Geocode(name),
        step_spec(name, Phase::Geocode, StoreEvent::Geocoded(Ok(c1))).1 == ActionView::Insert(
            name,
            c1,
        ),
        step_spec(name, Phase::Geocode, StoreEvent::Geocoded(Ok(c2))).1 == ActionView::Insert(
            name,
            c2,
        ),
        step_spec(name, Phase::Insert(c1), StoreEvent::Written).1 == ActionView::Finish(Ok(c1)),
        step_spec(name, Phase::Insert(c2), StoreEvent::Written).1 == ActionView::Finish(Ok(c2)),
        lookup_answer(
            store_after(store_after(log, ActionView::Insert(name, c1)), ActionView::Insert(name, c2)),
            name,
            Some(c1),
        ),
        lookup_answer(
            store_after(store_after(log, ActionView::Insert(name, c1)), ActionView::Insert(name, c2)),
            name,
            Some(c2),
        ),
        ans == Some(c1) || ans == Some(c2),
{
    let after = store_after(
        store_after(log, ActionView::Insert(name, c1)),
        ActionView::Insert(name, c2),
    );
    let n = log.len() as int;
    assert(after[n] == (name, c1));
    assert(after[n + 1] == (name, c2));
    match ans {
        None => {
            assert(after[n].0 != name);
        },
        Some(d) => {
            let i = choose|i: int| 0 <= i < after.len() && #[trigger] after[i] == (name, d);
            if i < n {
                assert(log[i] == after[i]);
                assert(log[i].0 != name);
            }
        },
    }
}

} // verus!
