use vstd::prelude::*;

use crate::geo::WeatherError;

verus! {

/// The query of a weather request: the city to look up.
pub struct WeatherQuery {
    pub city: String,
}

/// One forecast entry: a timestamp label and the temperature as text.
pub struct Forecast {
    pub date: String,
    pub temperature: String,
}

/// What a weather request answers with: the city as asked, and its forecast
/// in the upstream order.
pub struct WeatherDisplay {
    pub city: String,
    pub forecasts: Vec<Forecast>,
}

/// The number of entries that pairing two series gives: that of the shorter.
pub open spec fn paired_len(times: Seq<String>, temperatures: Seq<String>) -> nat {
    if times.len() <= temperatures.len() {
        times.len()
    } else {
        temperatures.len()
    }
}

/// `forecasts` pairs `times[i]` with `temperatures[i]` for each index that
/// both series have, in order, and holds nothing else.
pub open spec fn pairs_series(
    forecasts: Seq<Forecast>,
    times: Seq<String>,
    temperatures: Seq<String>,
) -> bool {
    &&& forecasts.len() == paired_len(times, temperatures)
    &&& forecasts.len() <= times.len()
    &&& forecasts.len() <= temperatures.len()
    &&& forall|i: int|
        0 <= i < forecasts.len() ==> #[trigger] forecasts[i].date@ == times[i]@
            && forecasts[i].temperature@ == temperatures[i]@
}

/// Pairs the timestamp labels with the formatted temperatures, index by
/// index. Where one series is longer, its tail is dropped.
pub fn aggregate(times: &Vec<String>, temperatures: &Vec<String>) -> (r: Vec<Forecast>)
    ensures
        pairs_series(r@, times@, temperatures@),
{
    let n: usize = if times.len() <= temperatures.len() {
        times.len()
    } else {
        temperatures.len()
    };
    let mut forecasts: Vec<Forecast> = Vec::new();
    let mut i: usize = 0;
    while i < n
        invariant
            n == paired_len(times@, temperatures@),
            n <= times.len(),
            n <= temperatures.len(),
            i <= n,
            forecasts.len() == i,
            forall|k: int|
                0 <= k < i ==> #[trigger] forecasts@[k].date@ == times@[k]@
                    && forecasts@[k].temperature@ == temperatures@[k]@,
        decreases n - i,
    {
        let entry = Forecast { date: times[i].clone(), temperature: temperatures[i].clone() };
        forecasts.push(entry);
        i = i + 1;
    }
    assert(forall|k: int|
        0 <= k < forecasts@.len() ==> #[trigger] forecasts@[k].date@ == times@[k]@
            && forecasts@[k].temperature@ == temperatures@[k]@);
    forecasts
}

impl WeatherDisplay {
    /// The display of `city` with the forecast paired from the two series.
    pub fn new(city: String, times: &Vec<String>, temperatures: &Vec<String>) -> (r: Self)
        ensures
            r.city@ == city@,
            pairs_series(r.forecasts@, times@, temperatures@),
    {
        WeatherDisplay { city, forecasts: aggregate(times, temperatures) }
    }
}

/// Whether `r` answers a weather request for `city` whose forecast fetch
/// gave `fetched`: a failed fetch fails the request with that error, and a
/// fetched series becomes the display of the city.
pub open spec fn answers(
    city: Seq<char>,
    fetched: Result<(Vec<String>, Vec<String>), WeatherError>,
    r: Result<WeatherDisplay, WeatherError>,
) -> bool {
    match fetched {
        Err(e) => r == Err::<WeatherDisplay, WeatherError>(e),
        Ok((times, temperatures)) => match r {
            Ok(d) => d.city@ == city && pairs_series(d.forecasts@, times@, temperatures@),
            Err(_) => false,
        },
    }
}

/// The end of a weather request, once its city was located and its forecast
/// fetched.
pub fn weather_outcome(
    city: String,
    fetched: Result<(Vec<String>, Vec<String>), WeatherError>,
) -> (r: Result<WeatherDisplay, WeatherError>)
    ensures
        answers(city@, fetched, r),
{
    match fetched {
        Err(e) => Err(e),
        Ok((times, temperatures)) => Ok(WeatherDisplay::new(city, &times, &temperatures)),
    }
}

} // verus!
