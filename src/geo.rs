use vstd::prelude::*;

verus! {

/// A coordinate pair. Each degree is held as the bit pattern of its IEEE-754
/// double, so that a coordinate read from the geocoder is stored and handed
/// back without any change.
#[derive(Clone, Copy, Debug, PartialEq, Eq, Structural)]
pub struct LatLong {
    pub latitude_bits: u64,
    pub longitude_bits: u64,
}

/// Why a weather request could not be answered.
#[derive(Clone, Copy, Debug, PartialEq, Eq, Structural)]
pub enum WeatherError {
    /// The geocoder knows no place of that name.
    NotFound,
    /// An upstream service or the store failed, or answered with a body that
    /// could not be read.
    Upstream,
}

/// The candidates that the geocoder returned for a name, best first. An
/// answer without a `results` field is read as an empty list.
pub struct GeoResponse {
    pub results: Vec<LatLong>,
}

/// What a geocoder answer means: its first candidate, or no match at all.
pub open spec fn first_candidate(results: Seq<LatLong>) -> Result<LatLong, WeatherError> {
    if results.len() > 0 {
        Ok(results[0])
    } else {
        Err(WeatherError::NotFound)
    }
}

impl GeoResponse {
    /// The coordinate that the geocoder settled on: the first candidate, or
    /// `NotFound` where there is none.
    pub fn first_match(&self) -> (r: Result<LatLong, WeatherError>)
        ensures
            r == first_candidate(self.results@),
    {
        if self.results.len() > 0 {
            Ok(self.results[0])
        } else {
            Err(WeatherError::NotFound)
        }
    }
}

} // verus!
