//! Batch screenshot embedding: per-file processing of JSON records that
//! reference a remote screenshot image, rewriting the reference into an
//! embedded base64 data URL.
//!
//! The library holds the decision logic of the pipeline: record parsing and
//! rewriting, outcome classification, filename resolution, media-type
//! detection and data-URL construction, and the run tally. File and network
//! I/O is left to the surrounding program, which feeds results of each I/O
//! step back into the library's step functions.

pub mod codec;
pub mod driver;
pub mod fetch;
pub mod media;
pub mod outcome;
pub mod pipeline;
pub mod resolve;
pub mod strings;

pub use outcome::AppError;
pub use outcome::FileProcessResult;
