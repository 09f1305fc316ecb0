//! Rewriting the EXIF metadata of photos: the text formats of the EXIF
//! description, the EXIF fields built from it, the JPEG APP1 splicing, the
//! report of an image's existing EXIF fields and the decisions of the MCP
//! tool server.

pub mod ai_generator;
pub mod cli;
pub mod exif_data;
pub mod exif_reader;
pub mod exif_writer;
pub mod formats;
pub mod jpeg;
pub mod mcp_server;
pub mod text;

use vstd::prelude::*;

verus! {

} // verus!
