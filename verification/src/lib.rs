//! A gzip encoder core with a fully custom member header.
//!
//! The crate owns the gzip container: it serialises the member header,
//! computes the trailer, and decides, one report at a time, how a DEFLATE
//! engine is driven over bounded input and output windows. The engine
//! itself belongs to the caller, who performs each [`Action`] the driver
//! asks for and reports what happened as an [`Event`].

pub mod checksum;
pub mod config;
pub mod driver;
pub mod error;
pub mod fixture;
pub mod header;
pub mod laws;
pub mod model;
pub mod reader;
pub mod trailer;

pub use checksum::crc32;
pub use config::{DeflateConfig, Flush};
pub use driver::{compress_gz, Encoder, Input};
pub use error::GzError;
pub use fixture::gz_header;
pub use header::GzHeaderData;
pub use model::{Action, Event};
