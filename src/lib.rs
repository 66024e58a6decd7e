//! Weather lookup by city name: a cache-aside geocode resolver, the
//! forecast aggregation, and the credential gate of the statistics page.

pub mod auth;
pub mod cache;
pub mod forecast;
pub mod geo;
pub mod pipeline;
