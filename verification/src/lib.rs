//! Turns saved map-place bookmarks into GeoJSON-style features.
//!
//! The pipeline goes: bookmark record -> place identifier embedded in the
//! bookmark URL -> place-lookup request -> parsed lookup response -> feature.
//! Reading the CSV input, performing the HTTP request and printing the final
//! document are left to the surrounding program; this crate holds the record
//! enrichment logic itself.

pub mod extract;
pub mod feature;
pub mod lookup;
pub mod pipeline;
