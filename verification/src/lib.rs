//! Delivery of a single local document to a fixed remote mailbox over SMTP,
//! optionally converting the document to another format first.
//!
//! The crate is organised around a linear pipeline:
//! validate the input path, optionally convert the artifact through an
//! external tool, compose a MIME message with the artifact attached, transmit
//! it over authenticated SMTP, and clean up any temporary file.  The pipeline
//! itself is a verified state machine ([`pipeline::run`]); the caller performs
//! the filesystem, process and network actions it asks for and feeds the
//! outcomes back as events.

pub mod compose;
pub mod errors;
pub mod paths;
pub mod pipeline;
pub mod settings;
pub mod smtp;
pub mod strings;

pub use errors::{AddressField, Error};
pub use paths::FileInfo;
pub use pipeline::{run, Args};
pub use settings::Settings;
