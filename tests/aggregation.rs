use forecast::forecast::{aggregate, weather_outcome, WeatherDisplay};
use forecast::geo::WeatherError;

fn strings(items: &[&str]) -> Vec<String> {
    items.iter().map(|s| s.to_string()).collect()
}

fn formatted(values: &[f64]) -> Vec<String> {
    values.iter().map(|v| v.to_string()).collect()
}

#[test]
fn mismatched_lengths_truncate() {
    let times = strings(&["t0", "t1", "t2"]);
    let temps = formatted(&[1.0, 2.0]);
    let r = aggregate(&times, &temps);
    assert_eq!(r.len(), 2);
    assert_eq!(r[0].date, "t0");
    assert_eq!(r[0].temperature, "1");
    assert_eq!(r[1].date, "t1");
    assert_eq!(r[1].temperature, "2");
}

#[test]
fn longer_temperatures_truncate() {
    let times = strings(&["a"]);
    let temps = formatted(&[-0.5, 7.25]);
    let r = aggregate(&times, &temps);
    assert_eq!(r.len(), 1);
    assert_eq!(r[0].date, "a");
    assert_eq!(r[0].temperature, "-0.5");
}

#[test]
fn empty_series_give_nothing() {
    let r = aggregate(&Vec::new(), &Vec::new());
    assert!(r.is_empty());
}

#[test]
fn display_keeps_city_and_order() {
    let times = strings(&["2024-01-01T00:00", "2024-01-01T01:00"]);
    let temps = formatted(&[3.5, 4.0]);
    let d = WeatherDisplay::new("Berlin".to_string(), &times, &temps);
    assert_eq!(d.city, "Berlin");
    assert_eq!(d.forecasts.len(), 2);
    assert_eq!(d.forecasts[1].date, "2024-01-01T01:00");
    assert_eq!(d.forecasts[1].temperature, "4");
}

#[test]
fn failed_fetch_fails_request() {
    let r = weather_outcome("Berlin".to_string(), Err(WeatherError::Upstream));
    assert!(matches!(r, Err(WeatherError::Upstream)));
}
