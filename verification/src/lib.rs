//! Data models and (de)serialization routines for the data formats used by the Geometry Dash
//! servers, together with machine-checked contracts describing them.

pub mod encoding;
pub mod model;
pub mod request;
pub mod serde;
pub mod split;
pub mod text;
pub mod util;
