//! Lifecycle of a build inside a build and release repository service: from
//! the end of its upload through commit verification and publication to its
//! purge, together with the jobs that carry out each step.
//!
//! A build has two states, one for its repository and one for its
//! publication ([`state`]). A request ([`db`]) may move them on, under the
//! conditions that [`guards`] lays down, and may leave a job ([`jobs`]) for
//! the worker. Every request is carried out as one step on the tables of an
//! executor ([`executor`]): it happens as a whole or not at all. What holds of
//! the requests on all tables is stated and proved in [`laws`].

pub mod builds;
pub mod db;
pub mod errors;
pub mod executor;
pub mod extra_ids;
pub mod guards;
pub mod jobs;
pub mod json;
pub mod laws;
pub mod state;
pub mod text;
