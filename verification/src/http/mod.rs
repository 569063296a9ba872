//! Metrics of the HTTP service.

pub mod events;
pub mod exposition;
pub mod families;
pub mod guards;
pub mod labels;
pub mod metrics;
pub mod observation;
pub mod response;
pub mod series;
pub mod streaming;
