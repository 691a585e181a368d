//! Keeps a presence indicator in step with one locally running media player.
//!
//! The library holds the decisions: which registered player belongs to the
//! launched process, how raw position and duration samples become timestamps,
//! what the single-slot song cache keeps from one tick to the next, and what
//! the event listener and the poller do next. The caller performs the bus
//! queries, the lookups and the publishing, and hands the results back as
//! plain values.

pub mod artwork;
pub mod cache;
pub mod config;
pub mod error;
pub mod identity;
pub mod launcher;
pub mod listener;
pub mod poller;
pub mod presence;
pub mod resolver;
pub mod text;
pub mod timing;
pub mod update;
