//! Bringing up the HTTP service, and keeping it in step with the models.

pub mod startup;
pub mod updates;
