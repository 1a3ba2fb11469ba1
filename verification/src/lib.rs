//! Integer core of a trending-score engine: period policy, time-bucketed
//! aggregation, growth and momentum estimation, and the exact rational
//! ingredients of the three scoring strategies.

pub mod period;
pub mod ratio;
pub mod records;
pub mod histogram;
pub mod trend;
pub mod aggregate;
pub mod combine;
pub mod decay;
pub mod scoring;
