//! Event-sourced core of a project marketplace: facts, aggregates folded from
//! them, duplicate-safe message envelopes, the "create project" transaction and
//! the projections that turn delivered facts into read-model rows, with the
//! contact types of the API and warn-level records for structured logging.
pub mod ids;
pub mod event;
pub mod project;
pub mod budget;
pub mod envelope;
pub mod usecase;
pub mod github;
pub mod projector;
pub mod dispatch;
pub mod contact;
pub mod log;
