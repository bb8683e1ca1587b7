//! A typed client library for a directory-sync and single-sign-on REST API:
//! identifiers, open enumerations, domain records, timestamp text, request
//! building and response classification.
pub mod text;
pub mod ids;
pub mod open_enum;
pub mod timestamp;
pub mod directory;
pub mod error;
pub mod request;
pub mod directory_sync;
pub mod sso;
