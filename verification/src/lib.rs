//! A verified core for a simulated AI-usage compliance pipeline: events are
//! generated with random attributes, evaluated against an ordered chain of
//! compliance rules, scored for risk, and aggregated into time-windowed
//! metrics for display.

pub mod aggregator;
pub mod components;
pub mod constants;
pub mod dashboard;
pub mod generator;
pub mod metrics;
pub mod rules;
pub mod worker;
