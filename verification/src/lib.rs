//! Core of a timeline data-source plugin for location data.
//!
//! Given a requested time range, the library determines which one-hour
//! sub-intervals of that range fall inside the remote service's availability
//! window, optionally attaches a range-scoped signature token, and packages
//! the result as compact event descriptors for a downstream renderer.
//! Network transport is left to the surrounding application; everything the
//! library computes is specified and verified.

pub mod errors;
pub mod events;
pub mod jsonval;
pub mod plugin;
pub mod reconcile;
pub mod responses;
pub mod text;
pub mod time;
pub mod urlenc;
pub mod viewer;

use vstd::prelude::*;

verus! {

/// Width of one bucket in milliseconds: one hour.
pub open const HOUR_MS: i64 = 3_600_000;

/// The fixed sub-path of the remote service's data endpoint.
pub const API_PATH: &'static str = "/api/data";

} // verus!
