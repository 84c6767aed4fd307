//! Vertex layouts worked out from the fields of a type, and the small
//! pattern language that recognises the names of types and enum variants
//! on the way; with them the index lists, textures and resource banks that
//! go with the vertex buffers.
//!
//! [`vertex_data::process`] builds the layout of a type from its
//! [`schema::Schema`]. [`path::PathCaptureExpr`] is the pattern matcher,
//! [`format::VertexFormat`] the catalog of formats, and
//! [`format::VertexFormat::parse_type`] finds the format of a declared type.

pub mod bank;
pub mod bytes;
pub mod classify;
pub mod error;
pub mod format;
pub mod math;
pub mod messages;
pub mod packing;
pub mod path;
pub mod resources;
pub mod schema;
pub mod shader;
pub mod syntax;
pub mod text;
pub mod texture;
pub mod types;
pub mod vertex;
pub mod vertex_data;
pub mod world;
