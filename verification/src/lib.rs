//! Bounded-region enumeration of points of interest from a paginated,
//! capped search service.
//!
//! The service paginates results in fixed-size pages and caps how many
//! records one query can page through, independently of how many truly
//! match.  The engine in [`engine`] guarantees complete, deduplicated
//! enumeration anyway: it keeps a stack of pending rectangular regions
//! and, whenever a region's reported cap falls short of its true match
//! count, bisects the region along its longer axis and enumerates the
//! halves instead.
//!
//! Coordinates are held in microdegrees as integers, so that region
//! arithmetic (validation, bisection, tiling) is exact.

pub mod categories;
pub mod dto;
pub mod engine;
pub mod error;
pub mod geo;
pub mod model;
pub mod models;
pub mod resultset;
pub mod text;
pub mod utils;

pub use categories::{get_categories_from, get_category_from, CategoryType};
pub use dto::{Category, Document, Meta, PageQuery, ResponseBody};
pub use engine::RegionEnumerator;
pub use error::Error;
pub use geo::{BoundingBox, Coords};
pub use resultset::ResultSet;
