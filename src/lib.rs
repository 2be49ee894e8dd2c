//! Verified core of a terminal resource dashboard: per-metric readings in
//! fixed-point form, the snapshot assembled from raw OS counters, the text
//! of the view, and the tick scheduler that drives the refresh loop.
pub mod metrics;
pub mod net;
pub mod snapshot;
pub mod view;
pub mod schedule;
