//! The two lookups: a place name to coordinates, and coordinates to a place.

pub mod geocode;
pub mod photon;
pub mod reverse_geocode;
