//! Building blocks for MySQL server plugins: the version stamps the loader
//! checks, the tags and records of a plugin descriptor, and the assembly of
//! the descriptor table that a plugin library hands to the server.
use vstd::prelude::*;

/// Version stamps shared with the server.
pub mod constants;

/// Plugin descriptor records and their tags.
pub mod types;

/// Assembly of the descriptor table read by the server's plugin loader.
pub mod declare;
