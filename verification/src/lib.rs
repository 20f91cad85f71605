//! Core of a cluster-event forwarder: normalizes raw cluster-lifecycle events
//! into canonical records, enriches them with host context, filters them
//! through a fixed chain of exclusion rules, guards against out-of-order
//! replay with a global watermark, and maps the survivors into the outbound
//! alert and trail shapes.
//!
//! All I/O (the watch stream, the two cluster lookups, the outbound sink)
//! lives outside this crate; the functions here consume and produce plain
//! values only.

pub mod alert;
pub mod config;
pub mod enrichment;
pub mod guard;
pub mod processor;
pub mod sentry_event;
pub mod severity;
pub mod text;
