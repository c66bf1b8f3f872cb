//! A typed client library for the Veezi cinema point-of-sale web API.
//!
//! The library exposes strongly-typed domain entities (sessions, films,
//! film packages, screens, sites, attributes) and a read-through caching
//! layer in front of an HTTP transport. The caching layer — per-entity-type
//! item caches plus single-slot "list all" caches, with time-to-live expiry,
//! capacity-bounded eviction and cross-cache invalidation — is fully
//! verified: every cache operation carries an exact contract over a
//! mathematical model of the cache contents, and the coherence properties
//! of the fetch orchestration are proved as lemmas.
//!
//! Time is handled explicitly: every operation that consults a cache takes
//! the current time (seconds since the Unix epoch) as an argument, so the
//! whole caching policy is verified for every possible clock value. The
//! HTTP transport itself is abstracted behind the [`client::Transport`]
//! trait; implementations live outside the verified core.

pub mod attr;
pub mod cache;
pub mod client;
pub mod error;
pub mod film;
pub mod laws;
pub mod package;
pub mod screen;
pub mod seqs;
pub mod session;
pub mod site;
pub mod text;

pub use error::{ApiResult, LibVeeziError};
