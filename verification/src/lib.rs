//! Verified core of a set of OpenTelemetry logging and metrics services:
//! the dice-rolling HTTP handlers, the scrape endpoint's routing, the metric
//! operations each request records, the exporter configuration, and the
//! structured log lines.
pub mod attribute;
pub mod config;
pub mod decimal;
pub mod dice;
pub mod logline;
pub mod metrics;
mod random;
pub mod scrape;
pub mod service;
pub mod text;
