//! Agent orchestration core of a personal workbench: action validation,
//! tolerant model-output normalisation, transactional batch execution with
//! audit records, provider routing with a deterministic fallback, the local
//! runtime adapter's decisions, and ordered stage events.
pub mod text;
pub mod json;
pub mod action;
pub mod store;
pub mod workbench;
pub mod events;
pub mod batch;
pub mod normalize;
pub mod runtime;
pub mod router;
pub mod chat;
pub mod tooling;
pub mod info;
pub mod catalog;
pub mod sink;
