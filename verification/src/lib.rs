//! Deterministic geospatial validation for registering meetup location sets.
//!
//! The crate decides whether a proposed batch of meetup locations may be
//! admitted into an append-only registry.  It enforces minimum geographic and
//! solar-time separation between the proposed locations themselves and
//! against every location already registered, and keeps locations away from
//! the poles and the antimeridian, where the longitude arithmetic of the
//! solar-time model breaks down.
//!
//! All geometry is computed over an explicit signed fixed-point degree type
//! so that independent executions agree bit for bit; no floating point is
//! involved anywhere.

pub mod fixedpoint;
pub mod trig;
pub mod geodesy;
pub mod proposal;
pub mod registry;
pub mod validation;

pub use fixedpoint::Degree;
pub use geodesy::{haversine_distance, is_valid_geolocation, solar_trip_time, Location};
pub use proposal::{location_set_id, AccountId, CurrencyIdentifier, LocationSet};
pub use registry::Registry;
pub use validation::{validate, RejectionReason, ValidationOutcome};
