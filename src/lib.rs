//! Building blocks of a single S3 object upload whose request URI may have its
//! `x-id` query parameter stripped before it is sent.
pub mod operation;
pub mod query;
pub mod settings;
pub mod uri;
