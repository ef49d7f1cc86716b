//! A push-triggered deployment agent: authenticates webhook deliveries,
//! extracts the pushed repository and ref, routes them against the
//! configured repositories and plans the resulting deployment job.

pub mod signature;
pub mod text;
pub mod config;
pub mod payload;
pub mod routing;
pub mod executor;
pub mod webhook;
pub mod queue;
