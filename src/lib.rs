//! Safe, ownership-checked access to a native geometry engine's GeoJSON writer.
//!
//! The native engine hands out opaque handles and signals failure with null
//! results. This library holds the decisions around those calls: whether a
//! handle is adopted or refused, what text a failure carries, and how a native
//! output becomes an owned value.
pub mod error;
pub mod geojson_writer;

pub use error::{Error, GResult};
pub use geojson_writer::GeoJSONWriter;
